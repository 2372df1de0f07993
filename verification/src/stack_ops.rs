use vstd::prelude::*;
use crate::arith::{
    int_div, int_rem, int_shl, int_shr, int_to_byte, int_to_char, int_to_short, int_ushr, long_div,
    long_order, long_rem, long_shl, long_shr, long_to_int, long_ushr,
};
use crate::convert::{
    double_to_int, double_to_long, double_to_single, int_to_double, int_to_single, long_to_double,
    long_to_single, single_to_double, single_to_int, single_to_long,
};
use crate::error::FatalError;
use crate::ieee::{double_compare, double_negate, single_compare, single_negate};
use crate::interp_stack::{dup2_result, is_wide, operands, replaced, top, under, InterpEvalStack};
use crate::opcode::Opcode;
use crate::value::JvmValue;

verus! {

/// The bit pattern of the single-precision number 1.
pub const SINGLE_ONE: u32 = 0x3f80_0000;

/// The bit pattern of the single-precision number 2.
pub const SINGLE_TWO: u32 = 0x4000_0000;

/// The bit pattern of the double-precision number 1.
pub const DOUBLE_ONE: u64 = 0x3ff0_0000_0000_0000;

/// The value that a constant operation pushes.
pub open spec fn pushed_constant(op: u8) -> Option<JvmValue> {
    if op == Opcode::ACONST_NULL {
        Some(JvmValue::ObjRef { val: 0 })
    } else if Opcode::ICONST_M1 <= op <= Opcode::ICONST_5 {
        Some(JvmValue::Int { val: (op - Opcode::ICONST_0) as i32 })
    } else if op == Opcode::LCONST_0 {
        Some(JvmValue::Long { val: 0 })
    } else if op == Opcode::LCONST_1 {
        Some(JvmValue::Long { val: 1 })
    } else if op == Opcode::FCONST_0 {
        Some(JvmValue::Float { val: 0 })
    } else if op == Opcode::FCONST_1 {
        Some(JvmValue::Float { val: SINGLE_ONE })
    } else if op == Opcode::FCONST_2 {
        Some(JvmValue::Float { val: SINGLE_TWO })
    } else if op == Opcode::DCONST_0 {
        Some(JvmValue::Double { val: 0 })
    } else if op == Opcode::DCONST_1 {
        Some(JvmValue::Double { val: DOUBLE_ONE })
    } else {
        None
    }
}

/// The type of the two operands of a binary operator that the machine
/// computes itself, as a descriptor letter.
pub open spec fn binary_tag(op: u8) -> Option<char> {
    if op == Opcode::IADD || op == Opcode::ISUB || op == Opcode::IMUL || op == Opcode::IDIV || op
        == Opcode::IREM || op == Opcode::IAND || op == Opcode::IOR || op == Opcode::IXOR || op
        == Opcode::ISHL || op == Opcode::ISHR || op == Opcode::IUSHR {
        Some('I')
    } else if op == Opcode::LADD || op == Opcode::LSUB || op == Opcode::LMUL || op == Opcode::LDIV
        || op == Opcode::LREM || op == Opcode::LAND || op == Opcode::LOR || op == Opcode::LXOR || op
        == Opcode::LSHL || op == Opcode::LSHR || op == Opcode::LUSHR || op == Opcode::LCMP {
        Some('J')
    } else if op == Opcode::FCMPL || op == Opcode::FCMPG {
        Some('F')
    } else if op == Opcode::DCMPL || op == Opcode::DCMPG {
        Some('D')
    } else {
        None
    }
}

/// Whether the operator divides, so that its right-hand operand may not be 0.
pub open spec fn divides(op: u8) -> bool {
    op == Opcode::IDIV || op == Opcode::IREM || op == Opcode::LDIV || op == Opcode::LREM
}

/// Whether the value is the integer or the long 0.
pub open spec fn is_zero(v: JvmValue) -> bool {
    match v {
        JvmValue::Long { val } => val == 0,
        _ => v.is_int_like() && v.int_value() == 0,
    }
}

/// The result of the integer operator `op` on `a` (left) and `b` (right).
pub open spec fn int_binary(op: u8, a: i32, b: i32) -> i32 {
    if op == Opcode::IADD {
        a.wrapping_add(b)
    } else if op == Opcode::ISUB {
        a.wrapping_sub(b)
    } else if op == Opcode::IMUL {
        a.wrapping_mul(b)
    } else if op == Opcode::IDIV {
        int_div(a, b)
    } else if op == Opcode::IREM {
        int_rem(a, b)
    } else if op == Opcode::IAND {
        a & b
    } else if op == Opcode::IOR {
        a | b
    } else if op == Opcode::IXOR {
        a ^ b
    } else if op == Opcode::ISHL {
        int_shl(a, b)
    } else if op == Opcode::ISHR {
        int_shr(a, b)
    } else {
        int_ushr(a, b)
    }
}

/// The result of the long operator `op` on `a` (left) and `b` (right).
pub open spec fn long_binary(op: u8, a: i64, b: i64) -> i64 {
    if op == Opcode::LADD {
        a.wrapping_add(b)
    } else if op == Opcode::LSUB {
        a.wrapping_sub(b)
    } else if op == Opcode::LMUL {
        a.wrapping_mul(b)
    } else if op == Opcode::LDIV {
        long_div(a, b)
    } else if op == Opcode::LREM {
        long_rem(a, b)
    } else if op == Opcode::LAND {
        a & b
    } else if op == Opcode::LOR {
        a | b
    } else if op == Opcode::LXOR {
        a ^ b
    } else if op == Opcode::LSHL {
        long_shl(a, b)
    } else if op == Opcode::LSHR {
        long_shr(a, b)
    } else {
        long_ushr(a, b)
    }
}

/// What the binary operator `op` leaves in place of its operands `a` (left,
/// popped second) and `b` (right, popped first).
pub open spec fn binary_value(op: u8, a: JvmValue, b: JvmValue) -> JvmValue {
    if op == Opcode::LCMP {
        JvmValue::Int { val: long_order(a->Long_val, b->Long_val) }
    } else if op == Opcode::FCMPL {
        JvmValue::Int { val: single_compare(a->Float_val, b->Float_val, -1i32) }
    } else if op == Opcode::FCMPG {
        JvmValue::Int { val: single_compare(a->Float_val, b->Float_val, 1) }
    } else if op == Opcode::DCMPL {
        JvmValue::Int { val: double_compare(a->Double_val, b->Double_val, -1i32) }
    } else if op == Opcode::DCMPG {
        JvmValue::Int { val: double_compare(a->Double_val, b->Double_val, 1) }
    } else if binary_tag(op) == Some('I') {
        JvmValue::Int { val: int_binary(op, a.int_value(), b.int_value()) }
    } else {
        JvmValue::Long { val: long_binary(op, a->Long_val, b->Long_val) }
    }
}

/// The type of the operand of a unary operator that the machine computes
/// itself.
pub open spec fn unary_tag(op: u8) -> Option<char> {
    if op == Opcode::INEG || op == Opcode::I2L || op == Opcode::I2B || op == Opcode::I2C || op
        == Opcode::I2S || op == Opcode::I2F || op == Opcode::I2D {
        Some('I')
    } else if op == Opcode::LNEG || op == Opcode::L2I || op == Opcode::L2F || op == Opcode::L2D {
        Some('J')
    } else if op == Opcode::FNEG || op == Opcode::F2I || op == Opcode::F2L || op == Opcode::F2D {
        Some('F')
    } else if op == Opcode::DNEG || op == Opcode::D2I || op == Opcode::D2L || op == Opcode::D2F {
        Some('D')
    } else {
        None
    }
}

/// What the unary operator `op` leaves in place of its operand.
pub open spec fn unary_value(op: u8, a: JvmValue) -> JvmValue {
    if op == Opcode::INEG {
        JvmValue::Int { val: 0i32.wrapping_sub(a.int_value()) }
    } else if op == Opcode::I2L {
        JvmValue::Long { val: a.int_value() as i64 }
    } else if op == Opcode::I2B {
        JvmValue::Byte { val: int_to_byte(a.int_value()) }
    } else if op == Opcode::I2C {
        JvmValue::Char { val: int_to_char(a.int_value()) }
    } else if op == Opcode::I2S {
        JvmValue::Short { val: int_to_short(a.int_value()) }
    } else if op == Opcode::LNEG {
        JvmValue::Long { val: 0i64.wrapping_sub(a->Long_val) }
    } else if op == Opcode::L2I {
        JvmValue::Int { val: long_to_int(a->Long_val) }
    } else if op == Opcode::FNEG {
        JvmValue::Float { val: single_negate(a->Float_val) }
    } else if op == Opcode::I2F {
        JvmValue::Float { val: int_to_single(a.int_value()) }
    } else if op == Opcode::I2D {
        JvmValue::Double { val: int_to_double(a.int_value()) }
    } else if op == Opcode::L2F {
        JvmValue::Float { val: long_to_single(a->Long_val) }
    } else if op == Opcode::L2D {
        JvmValue::Double { val: long_to_double(a->Long_val) }
    } else if op == Opcode::F2I {
        JvmValue::Int { val: single_to_int(a->Float_val) }
    } else if op == Opcode::F2L {
        JvmValue::Long { val: single_to_long(a->Float_val) }
    } else if op == Opcode::F2D {
        JvmValue::Double { val: single_to_double(a->Float_val) }
    } else if op == Opcode::D2F {
        JvmValue::Float { val: double_to_single(a->Double_val) }
    } else if op == Opcode::D2I {
        JvmValue::Int { val: double_to_int(a->Double_val) }
    } else if op == Opcode::D2L {
        JvmValue::Long { val: double_to_long(a->Double_val) }
    } else {
        JvmValue::Double { val: double_negate(a->Double_val) }
    }
}

/// Whether `op` only moves values about on the stack.
pub open spec fn shuffles(op: u8) -> bool {
    op == Opcode::NOP || op == Opcode::POP || op == Opcode::POP2 || op == Opcode::DUP || op
        == Opcode::DUP_X1 || op == Opcode::DUP2 || op == Opcode::SWAP
}

/// How many values `op` needs on a stack whose top is wide or not.
pub open spec fn shuffle_needs(op: u8, wide_top: bool) -> int {
    if op == Opcode::NOP {
        0
    } else if op == Opcode::POP || op == Opcode::DUP {
        1
    } else if op == Opcode::DUP_X1 || op == Opcode::SWAP {
        2
    } else if wide_top {
        1
    } else {
        2
    }
}

/// The stack after the shuffle `op`, which finds the values it needs.
pub open spec fn shuffled(op: u8, s: Seq<JvmValue>) -> Seq<JvmValue> {
    if op == Opcode::NOP {
        s
    } else if op == Opcode::POP {
        s.drop_last()
    } else if op == Opcode::POP2 {
        if is_wide(top(s)) {
            s.drop_last()
        } else {
            s.drop_last().drop_last()
        }
    } else if op == Opcode::DUP {
        s.push(top(s))
    } else if op == Opcode::DUP_X1 {
        s.take(s.len() - 2).push(top(s)).push(under(s)).push(top(s))
    } else if op == Opcode::DUP2 {
        dup2_result(s)
    } else {
        s.take(s.len() - 2).push(top(s)).push(under(s))
    }
}

/// What an operation that works on the stack alone makes of the stack `s`:
/// the new stack, or the reason why it cannot be done. `None` for every other
/// operation.
pub open spec fn stack_effect(op: u8, s: Seq<JvmValue>) -> Option<Result<Seq<JvmValue>, FatalError>> {
    if pushed_constant(op) is Some {
        Some(Ok(s.push(pushed_constant(op)->0)))
    } else if binary_tag(op) is Some {
        if !operands(s, binary_tag(op)->0, 2) {
            Some(Err(FatalError::BadOperands))
        } else if divides(op) && is_zero(top(s)) {
            Some(Err(FatalError::DivisionByZero))
        } else {
            Some(Ok(replaced(s, 2, binary_value(op, under(s), top(s)))))
        }
    } else if unary_tag(op) is Some {
        if !operands(s, unary_tag(op)->0, 1) {
            Some(Err(FatalError::BadOperands))
        } else {
            Some(Ok(replaced(s, 1, unary_value(op, top(s)))))
        }
    } else if shuffles(op) {
        if s.len() == 0 && op != Opcode::NOP {
            Some(Err(FatalError::BadOperands))
        } else if s.len() < shuffle_needs(op, s.len() > 0 && is_wide(top(s))) {
            Some(Err(FatalError::BadOperands))
        } else {
            Some(Ok(shuffled(op, s)))
        }
    } else {
        None
    }
}

/// How many values an operation on the stack alone takes off and puts on,
/// where the top of the stack is wide or not.
pub open spec fn stack_arity(op: u8, wide_top: bool) -> (int, int) {
    if pushed_constant(op) is Some {
        (0, 1)
    } else if binary_tag(op) is Some {
        (2, 1)
    } else if unary_tag(op) is Some {
        (1, 1)
    } else if op == Opcode::POP {
        (1, 0)
    } else if op == Opcode::POP2 {
        if wide_top {
            (1, 0)
        } else {
            (2, 0)
        }
    } else if op == Opcode::DUP {
        (1, 2)
    } else if op == Opcode::DUP_X1 {
        (2, 3)
    } else if op == Opcode::DUP2 {
        if wide_top {
            (1, 2)
        } else {
            (2, 4)
        }
    } else if op == Opcode::SWAP {
        (2, 2)
    } else {
        (0, 0)
    }
}

/// An operation on the stack alone that succeeds changes the height of the
/// stack by what it puts on less what it takes off, and leaves what lies
/// below its operands as it was.
pub proof fn lemma_stack_discipline(op: u8, s: Seq<JvmValue>)
    requires
        stack_effect(op, s) matches Some(Ok(_)),
    ensures
        ({
            let after = stack_effect(op, s)->0->Ok_0;
            let (taken, put) = stack_arity(op, s.len() > 0 && is_wide(top(s)));
            &&& s.len() >= taken
            &&& after.len() == s.len() - taken + put
            &&& after.take(s.len() - taken) == s.take(s.len() - taken)
        }),
{
    let after = stack_effect(op, s)->0->Ok_0;
    let (taken, put) = stack_arity(op, s.len() > 0 && is_wide(top(s)));
}

/// Widening the integer on top of the stack to a long and narrowing it again
/// leaves the stack as it was.
pub proof fn lemma_widen_narrow_round_trip(s: Seq<JvmValue>)
    requires
        s.len() >= 1,
        top(s) is Int,
    ensures
        stack_effect(Opcode::I2L, s) matches Some(Ok(widened)) && stack_effect(
            Opcode::L2I,
            widened,
        ) == Some(Ok::<Seq<JvmValue>, FatalError>(s)),
{
    let widened = stack_effect(Opcode::I2L, s)->0->Ok_0;
    crate::arith::lemma_widen_then_narrow(top(s).int_value());
    assert(replaced(widened, 1, JvmValue::Int { val: top(s).int_value() }) =~= s);
}

/// Making a float of an integer of no more than 24 binary places on top of
/// the stack, and an integer of that float, leaves the stack as it was.
pub proof fn lemma_float_round_trip(s: Seq<JvmValue>)
    requires
        s.len() >= 1,
        top(s) is Int,
        -0x80_0000 <= top(s).int_value() <= 0x80_0000,
    ensures
        stack_effect(Opcode::I2F, s) matches Some(Ok(floated)) && stack_effect(
            Opcode::F2I,
            floated,
        ) == Some(Ok::<Seq<JvmValue>, FatalError>(s)),
{
    let floated = stack_effect(Opcode::I2F, s)->0->Ok_0;
    crate::convert::lemma_int_single_round_trip(top(s).int_value());
    assert(replaced(floated, 1, JvmValue::Int { val: top(s).int_value() }) =~= s);
}

fn apply_constant(stack: &mut InterpEvalStack, op: u8)
    requires
        pushed_constant(op) is Some,
    ensures
        final(stack)@ == old(stack)@.push(pushed_constant(op)->0),
{
    if op == Opcode::ACONST_NULL {
        stack.aconst_null();
    } else if op == Opcode::ICONST_M1 {
        stack.iconst(-1);
    } else if op == Opcode::ICONST_0 {
        stack.iconst(0);
    } else if op == Opcode::ICONST_1 {
        stack.iconst(1);
    } else if op == Opcode::ICONST_2 {
        stack.iconst(2);
    } else if op == Opcode::ICONST_3 {
        stack.iconst(3);
    } else if op == Opcode::ICONST_4 {
        stack.iconst(4);
    } else if op == Opcode::ICONST_5 {
        stack.iconst(5);
    } else if op == Opcode::LCONST_0 {
        stack.lconst(0);
    } else if op == Opcode::LCONST_1 {
        stack.lconst(1);
    } else if op == Opcode::FCONST_0 {
        stack.fconst(0);
    } else if op == Opcode::FCONST_1 {
        stack.fconst(SINGLE_ONE);
    } else if op == Opcode::FCONST_2 {
        stack.fconst(SINGLE_TWO);
    } else if op == Opcode::DCONST_0 {
        stack.dconst(0);
    } else {
        stack.dconst(DOUBLE_ONE);
    }
}

fn apply_binary(stack: &mut InterpEvalStack, op: u8)
    requires
        binary_tag(op) is Some,
        operands(old(stack)@, binary_tag(op)->0, 2),
        !(divides(op) && is_zero(top(old(stack)@))),
    ensures
        final(stack)@ == replaced(
            old(stack)@,
            2,
            binary_value(op, under(old(stack)@), top(old(stack)@)),
        ),
{
    if op == Opcode::IADD {
        stack.iadd();
    } else if op == Opcode::ISUB {
        stack.isub();
    } else if op == Opcode::IMUL {
        stack.imul();
    } else if op == Opcode::IDIV {
        stack.idiv();
    } else if op == Opcode::IREM {
        stack.irem();
    } else if op == Opcode::IAND {
        stack.iand();
    } else if op == Opcode::IOR {
        stack.ior();
    } else if op == Opcode::IXOR {
        stack.ixor();
    } else if op == Opcode::ISHL {
        stack.ishl();
    } else if op == Opcode::ISHR {
        stack.ishr();
    } else if op == Opcode::IUSHR {
        stack.iushr();
    } else if op == Opcode::LADD {
        stack.ladd();
    } else if op == Opcode::LSUB {
        stack.lsub();
    } else if op == Opcode::LMUL {
        stack.lmul();
    } else if op == Opcode::LDIV {
        stack.ldiv();
    } else if op == Opcode::LREM {
        stack.lrem();
    } else if op == Opcode::LAND {
        stack.land();
    } else if op == Opcode::LOR {
        stack.lor();
    } else if op == Opcode::LXOR {
        stack.lxor();
    } else if op == Opcode::LSHL {
        stack.lshl();
    } else if op == Opcode::LSHR {
        stack.lshr();
    } else if op == Opcode::LUSHR {
        stack.lushr();
    } else if op == Opcode::LCMP {
        stack.lcmp();
    } else if op == Opcode::FCMPL {
        stack.fcmpl();
    } else if op == Opcode::FCMPG {
        stack.fcmpg();
    } else if op == Opcode::DCMPL {
        stack.dcmpl();
    } else {
        stack.dcmpg();
    }
}

fn apply_unary(stack: &mut InterpEvalStack, op: u8)
    requires
        unary_tag(op) is Some,
        operands(old(stack)@, unary_tag(op)->0, 1),
    ensures
        final(stack)@ == replaced(old(stack)@, 1, unary_value(op, top(old(stack)@))),
{
    if op == Opcode::INEG {
        stack.ineg();
    } else if op == Opcode::I2L {
        stack.i2l();
    } else if op == Opcode::I2B {
        stack.i2b();
    } else if op == Opcode::I2C {
        stack.i2c();
    } else if op == Opcode::I2S {
        stack.i2s();
    } else if op == Opcode::LNEG {
        stack.lneg();
    } else if op == Opcode::L2I {
        stack.l2i();
    } else if op == Opcode::FNEG {
        stack.fneg();
    } else if op == Opcode::I2F {
        stack.i2f();
    } else if op == Opcode::I2D {
        stack.i2d();
    } else if op == Opcode::L2F {
        stack.l2f();
    } else if op == Opcode::L2D {
        stack.l2d();
    } else if op == Opcode::F2I {
        stack.f2i();
    } else if op == Opcode::F2L {
        stack.f2l();
    } else if op == Opcode::F2D {
        stack.f2d();
    } else if op == Opcode::D2F {
        stack.d2f();
    } else if op == Opcode::D2I {
        stack.d2i();
    } else if op == Opcode::D2L {
        stack.d2l();
    } else {
        stack.dneg();
    }
}

fn apply_shuffle(stack: &mut InterpEvalStack, op: u8)
    requires
        shuffles(op),
        old(stack)@.len() >= shuffle_needs(
            op,
            old(stack)@.len() > 0 && is_wide(top(old(stack)@)),
        ),
        old(stack)@.len() > 0 || op == Opcode::NOP,
    ensures
        final(stack)@ == shuffled(op, old(stack)@),
{
    if op == Opcode::NOP {
    } else if op == Opcode::POP {
        let _ = stack.pop();
    } else if op == Opcode::POP2 {
        let v = stack.pop();
        match v {
            JvmValue::Long { .. } | JvmValue::Double { .. } => {},
            _ => {
                let _ = stack.pop();
            },
        }
    } else if op == Opcode::DUP {
        stack.dup();
    } else if op == Opcode::DUP_X1 {
        stack.dup_x1();
    } else if op == Opcode::DUP2 {
        stack.dup2();
    } else {
        stack.swap();
    }
}

/// The letter of the operand type of a typed operator, if `op` is one.
fn operand_tag(op: u8) -> (r: Option<(char, usize)>)
    ensures
        r == (if binary_tag(op) is Some {
            Some((binary_tag(op)->0, 2usize))
        } else if unary_tag(op) is Some {
            Some((unary_tag(op)->0, 1usize))
        } else {
            None
        }),
{
    if op == Opcode::IADD || op == Opcode::ISUB || op == Opcode::IMUL || op == Opcode::IDIV || op
        == Opcode::IREM || op == Opcode::IAND || op == Opcode::IOR || op == Opcode::IXOR || op
        == Opcode::ISHL || op == Opcode::ISHR || op == Opcode::IUSHR {
        Some(('I', 2))
    } else if op == Opcode::LADD || op == Opcode::LSUB || op == Opcode::LMUL || op == Opcode::LDIV
        || op == Opcode::LREM || op == Opcode::LAND || op == Opcode::LOR || op == Opcode::LXOR || op
        == Opcode::LSHL || op == Opcode::LSHR || op == Opcode::LUSHR || op == Opcode::LCMP {
        Some(('J', 2))
    } else if op == Opcode::FCMPL || op == Opcode::FCMPG {
        Some(('F', 2))
    } else if op == Opcode::DCMPL || op == Opcode::DCMPG {
        Some(('D', 2))
    } else if op == Opcode::INEG || op == Opcode::I2L || op == Opcode::I2B || op == Opcode::I2C
        || op == Opcode::I2S || op == Opcode::I2F || op == Opcode::I2D {
        Some(('I', 1))
    } else if op == Opcode::LNEG || op == Opcode::L2I || op == Opcode::L2F || op == Opcode::L2D {
        Some(('J', 1))
    } else if op == Opcode::FNEG || op == Opcode::F2I || op == Opcode::F2L || op == Opcode::F2D {
        Some(('F', 1))
    } else if op == Opcode::DNEG || op == Opcode::D2I || op == Opcode::D2L || op == Opcode::D2F {
        Some(('D', 1))
    } else {
        None
    }
}

/// Performs `op` on the stack if it is an operation on the stack alone.
/// Where it is none, or cannot be done, the stack stays as it is.
pub fn apply_stack_op(stack: &mut InterpEvalStack, op: u8) -> (r: Option<Result<(), FatalError>>)
    ensures
        match stack_effect(op, old(stack)@) {
            None => r is None && final(stack)@ == old(stack)@,
            Some(Ok(after)) => r == Some(Ok::<(), FatalError>(())) && final(stack)@ == after,
            Some(Err(e)) => r == Some(Err::<(), FatalError>(e)) && final(stack)@ == old(stack)@,
        },
{
    if op == Opcode::ACONST_NULL || (Opcode::ICONST_M1 <= op && op <= Opcode::DCONST_1) {
        apply_constant(stack, op);
        return Some(Ok(()));
    }
    match operand_tag(op) {
        Some((tag, count)) => {
            if !stack.has_operands(tag, count) {
                return Some(Err(FatalError::BadOperands));
            }
            if count == 2 {
                let divisor = stack.peek(0);
                let zero = match divisor {
                    JvmValue::Long { val } => val == 0,
                    _ => match divisor.as_int() {
                        Some(val) => val == 0,
                        None => false,
                    },
                };
                if zero && (op == Opcode::IDIV || op == Opcode::IREM || op == Opcode::LDIV || op
                    == Opcode::LREM) {
                    return Some(Err(FatalError::DivisionByZero));
                }
                apply_binary(stack, op);
            } else {
                apply_unary(stack, op);
            }
            Some(Ok(()))
        },
        None => {
            let shuffle = op == Opcode::NOP || op == Opcode::POP || op == Opcode::POP2 || op
                == Opcode::DUP || op == Opcode::DUP_X1 || op == Opcode::DUP2 || op == Opcode::SWAP;
            if !shuffle {
                return None;
            }
            let height = stack.len();
            if op != Opcode::NOP {
                if height == 0 {
                    return Some(Err(FatalError::BadOperands));
                }
                let wide = match stack.peek(0) {
                    JvmValue::Long { .. } | JvmValue::Double { .. } => true,
                    _ => false,
                };
                let needs: usize = if op == Opcode::POP || op == Opcode::DUP {
                    1
                } else if op == Opcode::DUP_X1 || op == Opcode::SWAP {
                    2
                } else if wide {
                    1
                } else {
                    2
                };
                if height < needs {
                    return Some(Err(FatalError::BadOperands));
                }
            }
            apply_shuffle(stack, op);
            Some(Ok(()))
        },
    }
}

} // verus!
