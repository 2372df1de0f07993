use vstd::prelude::*;
use crate::arith::{
    byte_of_int, char_of_int, div_int, div_long, int_div, int_of_long, int_rem, int_shl, int_shr,
    int_to_byte, int_to_char, int_to_short, int_ushr, long_div, long_order, long_rem, long_shl,
    long_shr, long_to_int, long_ushr, rem_int, rem_long, shl_int, shl_long, short_of_int, shr_int,
    shr_long, ushr_int, ushr_long,
};
use crate::convert::{
    double_of_int, double_of_long, double_of_single, double_to_int, double_to_long,
    double_to_single, int_of_double, int_of_single, int_to_double, int_to_single, long_of_double,
    long_of_single, long_to_double, long_to_single, single_of_double, single_of_int, single_of_long,
    single_to_double, single_to_int, single_to_long,
};
use crate::ieee::{
    compare_double, compare_single, double_compare, double_negate, negate_double, negate_single,
    single_compare, single_negate,
};
use crate::value::JvmValue;

verus! {

/// The top of the stack: the value that the next `pop` returns. For an
/// operator with two operands this is the right-hand one.
pub open spec fn top(s: Seq<JvmValue>) -> JvmValue {
    s[s.len() - 1]
}

/// The value below the top: the left-hand operand of a binary operator.
pub open spec fn under(s: Seq<JvmValue>) -> JvmValue {
    s[s.len() - 2]
}

/// The stack after its top `n` values were taken off and `v` was put on.
pub open spec fn replaced(s: Seq<JvmValue>, n: int, v: JvmValue) -> Seq<JvmValue> {
    s.take(s.len() - n).push(v)
}

/// The stack holds at least `n` values (`n` is 1 or 2), and its top `n` values
/// can stand where the type whose descriptor letter is `tag` is wanted. For
/// an integer that is an integer or one of the narrower types; for the others
/// the type itself.
pub open spec fn operands(s: Seq<JvmValue>, tag: char, n: int) -> bool {
    &&& 1 <= n <= 2
    &&& s.len() >= n
    &&& top(s).fits(tag)
    &&& n == 2 ==> under(s).fits(tag)
}

/// A value that takes two slots in a class file's view of the stack.
pub open spec fn is_wide(v: JvmValue) -> bool {
    v is Long || v is Double
}

/// What `dup2` leaves: a wide value on top is doubled alone, otherwise the top
/// two values are doubled as a pair.
pub open spec fn dup2_result(s: Seq<JvmValue>) -> Seq<JvmValue> {
    if is_wide(top(s)) {
        s.push(top(s))
    } else {
        s.push(under(s)).push(top(s))
    }
}

/// The evaluation stack of one method activation: a last-in, first-out
/// sequence of values whose last element is the top.
pub struct InterpEvalStack {
    stack: Vec<JvmValue>,
}

impl View for InterpEvalStack {
    type V = Seq<JvmValue>;

    closed spec fn view(&self) -> Seq<JvmValue> {
        self.stack@
    }
}

impl InterpEvalStack {
    pub fn of() -> (s: InterpEvalStack)
        ensures
            s@ == Seq::<JvmValue>::empty(),
    {
        InterpEvalStack { stack: Vec::new() }
    }

    pub fn len(&self) -> (n: usize)
        ensures
            n == self@.len(),
    {
        self.stack.len()
    }

    /// The value `depth` places below the top, left where it is.
    pub fn peek(&self, depth: usize) -> (v: JvmValue)
        requires
            depth < self@.len(),
        ensures
            v == self@[self@.len() - 1 - depth],
    {
        self.stack[self.stack.len() - 1 - depth]
    }

    /// Whether the top `n` values are there and have the type `tag`.
    pub fn has_operands(&self, tag: char, n: usize) -> (b: bool)
        ensures
            b == operands(self@, tag, n as int),
    {
        if n < 1 || n > 2 || self.stack.len() < n {
            return false;
        }
        if !self.peek(0).has_type(tag) {
            return false;
        }
        n == 1 || self.peek(1).has_type(tag)
    }

    pub fn push(&mut self, val: JvmValue)
        ensures
            final(self)@ == old(self)@.push(val),
    {
        self.stack.push(val);
    }

    pub fn pop(&mut self) -> (v: JvmValue)
        requires
            old(self)@.len() > 0,
        ensures
            v == top(old(self)@),
            final(self)@ == old(self)@.drop_last(),
    {
        match self.stack.pop() {
            Some(value) => value,
            None => vstd::pervasive::unreached(),
        }
    }

    fn pop_int(&mut self) -> (i: i32)
        requires
            operands(old(self)@, 'I', 1),
        ensures
            i == top(old(self)@).int_value(),
            final(self)@ == old(self)@.drop_last(),
    {
        match self.pop().as_int() {
            Some(i) => i,
            None => vstd::pervasive::unreached(),
        }
    }

    fn pop_long(&mut self) -> (i: i64)
        requires
            operands(old(self)@, 'J', 1),
        ensures
            i == top(old(self)@)->Long_val,
            final(self)@ == old(self)@.drop_last(),
    {
        match self.pop() {
            JvmValue::Long { val: i } => i,
            _ => vstd::pervasive::unreached(),
        }
    }

    fn pop_float(&mut self) -> (bits: u32)
        requires
            operands(old(self)@, 'F', 1),
        ensures
            bits == top(old(self)@)->Float_val,
            final(self)@ == old(self)@.drop_last(),
    {
        match self.pop() {
            JvmValue::Float { val: v } => v,
            _ => vstd::pervasive::unreached(),
        }
    }

    fn pop_double(&mut self) -> (bits: u64)
        requires
            operands(old(self)@, 'D', 1),
        ensures
            bits == top(old(self)@)->Double_val,
            final(self)@ == old(self)@.drop_last(),
    {
        match self.pop() {
            JvmValue::Double { val: v } => v,
            _ => vstd::pervasive::unreached(),
        }
    }

    pub fn aconst_null(&mut self)
        ensures
            final(self)@ == old(self)@.push(JvmValue::ObjRef { val: 0 }),
    {
        self.push(JvmValue::ObjRef { val: 0 });
    }

    //
    // I opcodes - int
    //
    pub fn iconst(&mut self, v: i32)
        ensures
            final(self)@ == old(self)@.push(JvmValue::Int { val: v }),
    {
        self.push(JvmValue::Int { val: v });
    }

    pub fn i2b(&mut self)
        requires
            operands(old(self)@, 'I', 1),
        ensures
            final(self)@ == replaced(
                old(self)@,
                1,
                JvmValue::Byte { val: int_to_byte(top(old(self)@).int_value()) },
            ),
    {
        let a = self.pop_int();
        self.push(JvmValue::Byte { val: byte_of_int(a) });
    }

    pub fn i2c(&mut self)
        requires
            operands(old(self)@, 'I', 1),
        ensures
            final(self)@ == replaced(
                old(self)@,
                1,
                JvmValue::Char { val: int_to_char(top(old(self)@).int_value()) },
            ),
    {
        let a = self.pop_int();
        self.push(JvmValue::Char { val: char_of_int(a) });
    }

    pub fn i2d(&mut self)
        requires
            operands(old(self)@, 'I', 1),
        ensures
            final(self)@ == replaced(
                old(self)@,
                1,
                JvmValue::Double { val: int_to_double(top(old(self)@).int_value()) },
            ),
    {
        let a = self.pop_int();
        self.push(JvmValue::Double { val: double_of_int(a) });
    }

    pub fn i2f(&mut self)
        requires
            operands(old(self)@, 'I', 1),
        ensures
            final(self)@ == replaced(
                old(self)@,
                1,
                JvmValue::Float { val: int_to_single(top(old(self)@).int_value()) },
            ),
    {
        let a = self.pop_int();
        self.push(JvmValue::Float { val: single_of_int(a) });
    }

    pub fn i2l(&mut self)
        requires
            operands(old(self)@, 'I', 1),
        ensures
            final(self)@ == replaced(
                old(self)@,
                1,
                JvmValue::Long { val: top(old(self)@).int_value() as i64 },
            ),
    {
        let a = self.pop_int();
        self.push(JvmValue::Long { val: a as i64 });
    }

    pub fn i2s(&mut self)
        requires
            operands(old(self)@, 'I', 1),
        ensures
            final(self)@ == replaced(
                old(self)@,
                1,
                JvmValue::Short { val: int_to_short(top(old(self)@).int_value()) },
            ),
    {
        let a = self.pop_int();
        self.push(JvmValue::Short { val: short_of_int(a) });
    }

    pub fn iadd(&mut self)
        requires
            operands(old(self)@, 'I', 2),
        ensures
            final(self)@ == replaced(
                old(self)@,
                2,
                JvmValue::Int {
                    val: under(old(self)@).int_value().wrapping_add(top(old(self)@).int_value()),
                },
            ),
    {
        let b = self.pop_int();
        let a = self.pop_int();
        self.push(JvmValue::Int { val: a.wrapping_add(b) });
    }

    pub fn isub(&mut self)
        requires
            operands(old(self)@, 'I', 2),
        ensures
            final(self)@ == replaced(
                old(self)@,
                2,
                JvmValue::Int {
                    val: under(old(self)@).int_value().wrapping_sub(top(old(self)@).int_value()),
                },
            ),
    {
        let b = self.pop_int();
        let a = self.pop_int();
        self.push(JvmValue::Int { val: a.wrapping_sub(b) });
    }

    pub fn imul(&mut self)
        requires
            operands(old(self)@, 'I', 2),
        ensures
            final(self)@ == replaced(
                old(self)@,
                2,
                JvmValue::Int {
                    val: under(old(self)@).int_value().wrapping_mul(top(old(self)@).int_value()),
                },
            ),
    {
        let b = self.pop_int();
        let a = self.pop_int();
        self.push(JvmValue::Int { val: a.wrapping_mul(b) });
    }

    pub fn irem(&mut self)
        requires
            operands(old(self)@, 'I', 2),
            top(old(self)@).int_value() != 0,
        ensures
            final(self)@ == replaced(
                old(self)@,
                2,
                JvmValue::Int {
                    val: int_rem(under(old(self)@).int_value(), top(old(self)@).int_value()),
                },
            ),
    {
        let b = self.pop_int();
        let a = self.pop_int();
        self.push(JvmValue::Int { val: rem_int(a, b) });
    }

    pub fn idiv(&mut self)
        requires
            operands(old(self)@, 'I', 2),
            top(old(self)@).int_value() != 0,
        ensures
            final(self)@ == replaced(
                old(self)@,
                2,
                JvmValue::Int {
                    val: int_div(under(old(self)@).int_value(), top(old(self)@).int_value()),
                },
            ),
    {
        let b = self.pop_int();
        let a = self.pop_int();
        self.push(JvmValue::Int { val: div_int(a, b) });
    }

    pub fn iand(&mut self)
        requires
            operands(old(self)@, 'I', 2),
        ensures
            final(self)@ == replaced(
                old(self)@,
                2,
                JvmValue::Int { val: under(old(self)@).int_value() & top(old(self)@).int_value() },
            ),
    {
        let b = self.pop_int();
        let a = self.pop_int();
        self.push(JvmValue::Int { val: a & b });
    }

    pub fn ineg(&mut self)
        requires
            operands(old(self)@, 'I', 1),
        ensures
            final(self)@ == replaced(
                old(self)@,
                1,
                JvmValue::Int { val: 0i32.wrapping_sub(top(old(self)@).int_value()) },
            ),
    {
        let a = self.pop_int();
        self.push(JvmValue::Int { val: 0i32.wrapping_sub(a) });
    }

    pub fn ior(&mut self)
        requires
            operands(old(self)@, 'I', 2),
        ensures
            final(self)@ == replaced(
                old(self)@,
                2,
                JvmValue::Int { val: under(old(self)@).int_value() | top(old(self)@).int_value() },
            ),
    {
        let b = self.pop_int();
        let a = self.pop_int();
        self.push(JvmValue::Int { val: a | b });
    }

    pub fn ixor(&mut self)
        requires
            operands(old(self)@, 'I', 2),
        ensures
            final(self)@ == replaced(
                old(self)@,
                2,
                JvmValue::Int { val: under(old(self)@).int_value() ^ top(old(self)@).int_value() },
            ),
    {
        let b = self.pop_int();
        let a = self.pop_int();
        self.push(JvmValue::Int { val: a ^ b });
    }

    pub fn ishl(&mut self)
        requires
            operands(old(self)@, 'I', 2),
        ensures
            final(self)@ == replaced(
                old(self)@,
                2,
                JvmValue::Int {
                    val: int_shl(under(old(self)@).int_value(), top(old(self)@).int_value()),
                },
            ),
    {
        let b = self.pop_int();
        let a = self.pop_int();
        self.push(JvmValue::Int { val: shl_int(a, b) });
    }

    pub fn ishr(&mut self)
        requires
            operands(old(self)@, 'I', 2),
        ensures
            final(self)@ == replaced(
                old(self)@,
                2,
                JvmValue::Int {
                    val: int_shr(under(old(self)@).int_value(), top(old(self)@).int_value()),
                },
            ),
    {
        let b = self.pop_int();
        let a = self.pop_int();
        self.push(JvmValue::Int { val: shr_int(a, b) });
    }

    pub fn iushr(&mut self)
        requires
            operands(old(self)@, 'I', 2),
        ensures
            final(self)@ == replaced(
                old(self)@,
                2,
                JvmValue::Int {
                    val: int_ushr(under(old(self)@).int_value(), top(old(self)@).int_value()),
                },
            ),
    {
        let b = self.pop_int();
        let a = self.pop_int();
        self.push(JvmValue::Int { val: ushr_int(a, b) });
    }

    //
    // L opcodes - long
    //
    pub fn lconst(&mut self, v: i64)
        ensures
            final(self)@ == old(self)@.push(JvmValue::Long { val: v }),
    {
        self.push(JvmValue::Long { val: v });
    }

    pub fn l2i(&mut self)
        requires
            operands(old(self)@, 'J', 1),
        ensures
            final(self)@ == replaced(
                old(self)@,
                1,
                JvmValue::Int { val: long_to_int(top(old(self)@)->Long_val) },
            ),
    {
        let a = self.pop_long();
        self.push(JvmValue::Int { val: int_of_long(a) });
    }

    pub fn l2d(&mut self)
        requires
            operands(old(self)@, 'J', 1),
        ensures
            final(self)@ == replaced(
                old(self)@,
                1,
                JvmValue::Double { val: long_to_double(top(old(self)@)->Long_val) },
            ),
    {
        let a = self.pop_long();
        self.push(JvmValue::Double { val: double_of_long(a) });
    }

    pub fn l2f(&mut self)
        requires
            operands(old(self)@, 'J', 1),
        ensures
            final(self)@ == replaced(
                old(self)@,
                1,
                JvmValue::Float { val: long_to_single(top(old(self)@)->Long_val) },
            ),
    {
        let a = self.pop_long();
        self.push(JvmValue::Float { val: single_of_long(a) });
    }

    pub fn ladd(&mut self)
        requires
            operands(old(self)@, 'J', 2),
        ensures
            final(self)@ == replaced(
                old(self)@,
                2,
                JvmValue::Long {
                    val: under(old(self)@)->Long_val.wrapping_add(top(old(self)@)->Long_val),
                },
            ),
    {
        let b = self.pop_long();
        let a = self.pop_long();
        self.push(JvmValue::Long { val: a.wrapping_add(b) });
    }

    pub fn lsub(&mut self)
        requires
            operands(old(self)@, 'J', 2),
        ensures
            final(self)@ == replaced(
                old(self)@,
                2,
                JvmValue::Long {
                    val: under(old(self)@)->Long_val.wrapping_sub(top(old(self)@)->Long_val),
                },
            ),
    {
        let b = self.pop_long();
        let a = self.pop_long();
        self.push(JvmValue::Long { val: a.wrapping_sub(b) });
    }

    pub fn lrem(&mut self)
        requires
            operands(old(self)@, 'J', 2),
            top(old(self)@)->Long_val != 0,
        ensures
            final(self)@ == replaced(
                old(self)@,
                2,
                JvmValue::Long {
                    val: long_rem(under(old(self)@)->Long_val, top(old(self)@)->Long_val),
                },
            ),
    {
        let b = self.pop_long();
        let a = self.pop_long();
        self.push(JvmValue::Long { val: rem_long(a, b) });
    }

    pub fn ldiv(&mut self)
        requires
            operands(old(self)@, 'J', 2),
            top(old(self)@)->Long_val != 0,
        ensures
            final(self)@ == replaced(
                old(self)@,
                2,
                JvmValue::Long {
                    val: long_div(under(old(self)@)->Long_val, top(old(self)@)->Long_val),
                },
            ),
    {
        let b = self.pop_long();
        let a = self.pop_long();
        self.push(JvmValue::Long { val: div_long(a, b) });
    }

    pub fn lmul(&mut self)
        requires
            operands(old(self)@, 'J', 2),
        ensures
            final(self)@ == replaced(
                old(self)@,
                2,
                JvmValue::Long {
                    val: under(old(self)@)->Long_val.wrapping_mul(top(old(self)@)->Long_val),
                },
            ),
    {
        let b = self.pop_long();
        let a = self.pop_long();
        self.push(JvmValue::Long { val: a.wrapping_mul(b) });
    }

    pub fn lneg(&mut self)
        requires
            operands(old(self)@, 'J', 1),
        ensures
            final(self)@ == replaced(
                old(self)@,
                1,
                JvmValue::Long { val: 0i64.wrapping_sub(top(old(self)@)->Long_val) },
            ),
    {
        let a = self.pop_long();
        self.push(JvmValue::Long { val: 0i64.wrapping_sub(a) });
    }

    pub fn land(&mut self)
        requires
            operands(old(self)@, 'J', 2),
        ensures
            final(self)@ == replaced(
                old(self)@,
                2,
                JvmValue::Long { val: under(old(self)@)->Long_val & top(old(self)@)->Long_val },
            ),
    {
        let b = self.pop_long();
        let a = self.pop_long();
        self.push(JvmValue::Long { val: a & b });
    }

    pub fn lor(&mut self)
        requires
            operands(old(self)@, 'J', 2),
        ensures
            final(self)@ == replaced(
                old(self)@,
                2,
                JvmValue::Long { val: under(old(self)@)->Long_val | top(old(self)@)->Long_val },
            ),
    {
        let b = self.pop_long();
        let a = self.pop_long();
        self.push(JvmValue::Long { val: a | b });
    }

    pub fn lxor(&mut self)
        requires
            operands(old(self)@, 'J', 2),
        ensures
            final(self)@ == replaced(
                old(self)@,
                2,
                JvmValue::Long { val: under(old(self)@)->Long_val ^ top(old(self)@)->Long_val },
            ),
    {
        let b = self.pop_long();
        let a = self.pop_long();
        self.push(JvmValue::Long { val: a ^ b });
    }

    pub fn lshl(&mut self)
        requires
            operands(old(self)@, 'J', 2),
        ensures
            final(self)@ == replaced(
                old(self)@,
                2,
                JvmValue::Long {
                    val: long_shl(under(old(self)@)->Long_val, top(old(self)@)->Long_val),
                },
            ),
    {
        let b = self.pop_long();
        let a = self.pop_long();
        self.push(JvmValue::Long { val: shl_long(a, b) });
    }

    pub fn lshr(&mut self)
        requires
            operands(old(self)@, 'J', 2),
        ensures
            final(self)@ == replaced(
                old(self)@,
                2,
                JvmValue::Long {
                    val: long_shr(under(old(self)@)->Long_val, top(old(self)@)->Long_val),
                },
            ),
    {
        let b = self.pop_long();
        let a = self.pop_long();
        self.push(JvmValue::Long { val: shr_long(a, b) });
    }

    pub fn lushr(&mut self)
        requires
            operands(old(self)@, 'J', 2),
        ensures
            final(self)@ == replaced(
                old(self)@,
                2,
                JvmValue::Long {
                    val: long_ushr(under(old(self)@)->Long_val, top(old(self)@)->Long_val),
                },
            ),
    {
        let b = self.pop_long();
        let a = self.pop_long();
        self.push(JvmValue::Long { val: ushr_long(a, b) });
    }

    pub fn lcmp(&mut self)
        requires
            operands(old(self)@, 'J', 2),
        ensures
            final(self)@ == replaced(
                old(self)@,
                2,
                JvmValue::Int {
                    val: long_order(under(old(self)@)->Long_val, top(old(self)@)->Long_val),
                },
            ),
    {
        let v2 = self.pop_long();
        let v1 = self.pop_long();
        let mut out = JvmValue::Int { val: 0 };
        if v1 > v2 {
            out = JvmValue::Int { val: 1 };
        }
        if v1 < v2 {
            out = JvmValue::Int { val: -1 };
        }
        self.push(out);
    }

    //
    // F opcodes - float
    //
    pub fn fconst(&mut self, bits: u32)
        ensures
            final(self)@ == old(self)@.push(JvmValue::Float { val: bits }),
    {
        self.push(JvmValue::Float { val: bits });
    }

    pub fn fneg(&mut self)
        requires
            operands(old(self)@, 'F', 1),
        ensures
            final(self)@ == replaced(
                old(self)@,
                1,
                JvmValue::Float { val: single_negate(top(old(self)@)->Float_val) },
            ),
    {
        let a = self.pop_float();
        self.push(JvmValue::Float { val: negate_single(a) });
    }

    pub fn f2d(&mut self)
        requires
            operands(old(self)@, 'F', 1),
        ensures
            final(self)@ == replaced(
                old(self)@,
                1,
                JvmValue::Double { val: single_to_double(top(old(self)@)->Float_val) },
            ),
    {
        let a = self.pop_float();
        self.push(JvmValue::Double { val: double_of_single(a) });
    }

    pub fn f2i(&mut self)
        requires
            operands(old(self)@, 'F', 1),
        ensures
            final(self)@ == replaced(
                old(self)@,
                1,
                JvmValue::Int { val: single_to_int(top(old(self)@)->Float_val) },
            ),
    {
        let a = self.pop_float();
        self.push(JvmValue::Int { val: int_of_single(a) });
    }

    pub fn f2l(&mut self)
        requires
            operands(old(self)@, 'F', 1),
        ensures
            final(self)@ == replaced(
                old(self)@,
                1,
                JvmValue::Long { val: single_to_long(top(old(self)@)->Float_val) },
            ),
    {
        let a = self.pop_float();
        self.push(JvmValue::Long { val: long_of_single(a) });
    }

    /// Compares two floats; a NaN on either side gives 1.
    pub fn fcmpg(&mut self)
        requires
            operands(old(self)@, 'F', 2),
        ensures
            final(self)@ == replaced(
                old(self)@,
                2,
                JvmValue::Int {
                    val: single_compare(
                        under(old(self)@)->Float_val,
                        top(old(self)@)->Float_val,
                        1,
                    ),
                },
            ),
    {
        let v2 = self.pop_float();
        let v1 = self.pop_float();
        self.push(JvmValue::Int { val: compare_single(v1, v2, 1) });
    }

    /// Compares two floats; a NaN on either side gives -1.
    pub fn fcmpl(&mut self)
        requires
            operands(old(self)@, 'F', 2),
        ensures
            final(self)@ == replaced(
                old(self)@,
                2,
                JvmValue::Int {
                    val: single_compare(
                        under(old(self)@)->Float_val,
                        top(old(self)@)->Float_val,
                        -1i32,
                    ),
                },
            ),
    {
        let v2 = self.pop_float();
        let v1 = self.pop_float();
        self.push(JvmValue::Int { val: compare_single(v1, v2, -1) });
    }

    //
    // D opcodes - double
    //
    pub fn dconst(&mut self, bits: u64)
        ensures
            final(self)@ == old(self)@.push(JvmValue::Double { val: bits }),
    {
        self.push(JvmValue::Double { val: bits });
    }

    pub fn dneg(&mut self)
        requires
            operands(old(self)@, 'D', 1),
        ensures
            final(self)@ == replaced(
                old(self)@,
                1,
                JvmValue::Double { val: double_negate(top(old(self)@)->Double_val) },
            ),
    {
        let a = self.pop_double();
        self.push(JvmValue::Double { val: negate_double(a) });
    }

    pub fn d2f(&mut self)
        requires
            operands(old(self)@, 'D', 1),
        ensures
            final(self)@ == replaced(
                old(self)@,
                1,
                JvmValue::Float { val: double_to_single(top(old(self)@)->Double_val) },
            ),
    {
        let a = self.pop_double();
        self.push(JvmValue::Float { val: single_of_double(a) });
    }

    pub fn d2i(&mut self)
        requires
            operands(old(self)@, 'D', 1),
        ensures
            final(self)@ == replaced(
                old(self)@,
                1,
                JvmValue::Int { val: double_to_int(top(old(self)@)->Double_val) },
            ),
    {
        let a = self.pop_double();
        self.push(JvmValue::Int { val: int_of_double(a) });
    }

    pub fn d2l(&mut self)
        requires
            operands(old(self)@, 'D', 1),
        ensures
            final(self)@ == replaced(
                old(self)@,
                1,
                JvmValue::Long { val: double_to_long(top(old(self)@)->Double_val) },
            ),
    {
        let a = self.pop_double();
        self.push(JvmValue::Long { val: long_of_double(a) });
    }

    /// Compares two doubles; a NaN on either side gives 1.
    pub fn dcmpg(&mut self)
        requires
            operands(old(self)@, 'D', 2),
        ensures
            final(self)@ == replaced(
                old(self)@,
                2,
                JvmValue::Int {
                    val: double_compare(
                        under(old(self)@)->Double_val,
                        top(old(self)@)->Double_val,
                        1,
                    ),
                },
            ),
    {
        let v2 = self.pop_double();
        let v1 = self.pop_double();
        self.push(JvmValue::Int { val: compare_double(v1, v2, 1) });
    }

    /// Compares two doubles; a NaN on either side gives -1.
    pub fn dcmpl(&mut self)
        requires
            operands(old(self)@, 'D', 2),
        ensures
            final(self)@ == replaced(
                old(self)@,
                2,
                JvmValue::Int {
                    val: double_compare(
                        under(old(self)@)->Double_val,
                        top(old(self)@)->Double_val,
                        -1i32,
                    ),
                },
            ),
    {
        let v2 = self.pop_double();
        let v1 = self.pop_double();
        self.push(JvmValue::Int { val: compare_double(v1, v2, -1) });
    }

    //
    //  Stack Manipulation
    //
    pub fn dup(&mut self)
        requires
            old(self)@.len() >= 1,
        ensures
            final(self)@ == old(self)@.push(top(old(self)@)),
    {
        let i1 = self.pop();
        self.push(i1);
        self.push(i1);
    }

    /// Puts a copy of the top value below the value under it.
    pub fn dup_x1(&mut self)
        requires
            old(self)@.len() >= 2,
        ensures
            final(self)@ == old(self)@.take(old(self)@.len() - 2).push(top(old(self)@)).push(
                under(old(self)@),
            ).push(top(old(self)@)),
    {
        let i1 = self.pop();
        let i2 = self.pop();
        self.push(i1);
        self.push(i2);
        self.push(i1);
    }

    pub fn dup2(&mut self)
        requires
            old(self)@.len() >= 1,
            is_wide(top(old(self)@)) || old(self)@.len() >= 2,
        ensures
            final(self)@ == dup2_result(old(self)@),
    {
        let v1 = self.peek(0);
        match v1 {
            JvmValue::Long { .. } | JvmValue::Double { .. } => {
                self.push(v1);
            },
            _ => {
                let v2 = self.peek(1);
                self.push(v2);
                self.push(v1);
            },
        }
    }

    /// Exchanges the top two values.
    pub fn swap(&mut self)
        requires
            old(self)@.len() >= 2,
        ensures
            final(self)@ == old(self)@.take(old(self)@.len() - 2).push(top(old(self)@)).push(
                under(old(self)@),
            ),
    {
        let i1 = self.pop();
        let i2 = self.pop();
        self.push(i1);
        self.push(i2);
    }
}

} // verus!
