use vstd::prelude::*;
use crate::arith::{int_to_byte, int_to_char, int_to_short};
use crate::constant_pool::{pool_text, CpModel};
use crate::descriptor::arity;
use crate::error::FatalError;
use crate::heap::{array_slots, live, target, ObjModel};
use crate::interp_stack::{is_wide, operands, replaced, top, under};
use crate::klass_repo::{
    descends_from, exact_target, field_target, klass_target, known, method_ref_name_desc,
    resolve_virtual, MethodSite,
};
use crate::local_vars::signed_byte;
use crate::opcode::Opcode;
use crate::otklass::{KlassModel, StaticModel};
use crate::otmethod::MethodModel;
use crate::stack_ops::{lemma_stack_discipline, stack_arity, stack_effect};
use crate::value::JvmValue;

verus! {

/// One method activation: the code it runs, where it stands in it, and its
/// own stack and local variables. `klass_id` is the id of the class whose
/// constant pool the code refers to; 0 for code that belongs to no class.
#[verifier::ext_equal]
pub struct FrameModel {
    pub klass_id: usize,
    pub code: Seq<u8>,
    pub pc: usize,
    pub stack: Seq<JvmValue>,
    pub lvt: Seq<JvmValue>,
}

/// The whole machine: the classes, the objects, the running activation and
/// the activations that wait for it, the outermost first.
#[verifier::ext_equal]
pub struct MachineModel {
    pub klasses: Seq<KlassModel>,
    pub objects: Seq<ObjModel>,
    pub frame: FrameModel,
    pub callers: Seq<FrameModel>,
}

/// What the machine cannot do itself and hands to its host.
#[derive(Clone, Copy, Debug, PartialEq, Eq, Structural)]
pub enum HostRequest {
    /// The operation `op` of floating-point arithmetic on the operands that
    /// lie on the stack.
    Compute { op: u8 },
    /// A call of the native method at `site` with the arguments that lie on
    /// the stack.
    Native { site: MethodSite },
}

/// What one step of the machine comes to.
pub enum Transition {
    /// The machine goes on in the state `to`.
    Goes { to: MachineModel },
    /// The outermost method returned; the state is as before.
    Returns { value: Option<JvmValue> },
    /// The host has to act; the state is as before.
    Asks { request: HostRequest },
    /// The machine cannot go on; the state is as before.
    Fails { error: FatalError },
}

// ---------------------------------------------------------------------------
// Reading operands
// ---------------------------------------------------------------------------
/// The unsigned 16-bit number in the two bytes after the operation code.
pub open spec fn operand_u16(code: Seq<u8>, pc: int) -> int {
    code[pc + 1] * 256 + code[pc + 2]
}

/// The signed 16-bit number in the two bytes after the operation code.
pub open spec fn operand_i16(code: Seq<u8>, pc: int) -> int {
    if operand_u16(code, pc) >= 32768 {
        operand_u16(code, pc) - 65536
    } else {
        operand_u16(code, pc)
    }
}

/// The signed 32-bit number in the four bytes from `at`.
pub open spec fn word_at(code: Seq<u8>, at: int) -> int {
    let u = code[at] * 16777216 + code[at + 1] * 65536 + code[at + 2] * 256 + code[at + 3];
    if u >= 2147483648 {
        u - 4294967296
    } else {
        u
    }
}

/// The state with the running activation's stack replaced and its program
/// counter moved on by `width`.
pub open spec fn advanced(m: MachineModel, stack: Seq<JvmValue>, width: int) -> MachineModel {
    MachineModel {
        frame: FrameModel { stack, pc: (m.frame.pc + width) as usize, ..m.frame },
        ..m
    }
}

/// The state with the running activation's stack replaced and its program
/// counter set to `pc`.
pub open spec fn jumped(m: MachineModel, stack: Seq<JvmValue>, pc: int) -> MachineModel {
    MachineModel { frame: FrameModel { stack, pc: pc as usize, ..m.frame }, ..m }
}

// ---------------------------------------------------------------------------
// Local variables
// ---------------------------------------------------------------------------
/// For an operation that loads a local variable: how many bytes the
/// instruction takes. Two if the index is an operand, one if the operation
/// code holds it.
pub open spec fn load_width(op: u8) -> Option<int> {
    if Opcode::ILOAD <= op <= Opcode::ALOAD {
        Some(2)
    } else if Opcode::ILOAD_0 <= op <= Opcode::ALOAD_3 {
        Some(1)
    } else {
        None
    }
}

/// The same for an operation that stores into a local variable.
pub open spec fn store_width(op: u8) -> Option<int> {
    if Opcode::ISTORE <= op <= Opcode::ASTORE {
        Some(2)
    } else if Opcode::ISTORE_0 <= op <= Opcode::ASTORE_3 {
        Some(1)
    } else {
        None
    }
}

/// The index of the local variable that a load or store names.
pub open spec fn local_index(op: u8, code: Seq<u8>, pc: int) -> int {
    if Opcode::ILOAD_0 <= op <= Opcode::ALOAD_3 {
        (op - Opcode::ILOAD_0) % 4
    } else if Opcode::ISTORE_0 <= op <= Opcode::ASTORE_3 {
        (op - Opcode::ISTORE_0) % 4
    } else {
        code[pc + 1] as int
    }
}

pub open spec fn is_local_op(op: u8) -> bool {
    load_width(op) is Some || store_width(op) is Some || op == Opcode::IINC
}

/// A load pushes the variable, a store pops into it, an increment adds its
/// signed operand to the integer in it.
pub open spec fn local_step(m: MachineModel) -> Transition {
    let f = m.frame;
    let op = f.code[f.pc as int];
    let width = if op == Opcode::IINC {
        3
    } else if load_width(op) is Some {
        load_width(op)->0
    } else {
        store_width(op)->0
    };
    if f.pc + width > f.code.len() {
        Transition::Fails { error: FatalError::CodeOverrun }
    } else {
        let idx = local_index(op, f.code, f.pc as int);
        if idx >= f.lvt.len() {
            Transition::Fails { error: FatalError::BadLocal }
        } else if op == Opcode::IINC {
            if f.lvt[idx].is_int_like() {
                let sum = f.lvt[idx].int_value().wrapping_add(
                    signed_byte(f.code[f.pc + 2]) as i32,
                );
                Transition::Goes {
                    to: MachineModel {
                        frame: FrameModel {
                            lvt: f.lvt.update(idx, JvmValue::Int { val: sum }),
                            pc: (f.pc + 3) as usize,
                            ..f
                        },
                        ..m
                    },
                }
            } else {
                Transition::Fails { error: FatalError::BadOperands }
            }
        } else if load_width(op) is Some {
            Transition::Goes { to: advanced(m, f.stack.push(f.lvt[idx]), width) }
        } else if f.stack.len() == 0 {
            Transition::Fails { error: FatalError::BadOperands }
        } else {
            Transition::Goes {
                to: MachineModel {
                    frame: FrameModel {
                        lvt: f.lvt.update(idx, top(f.stack)),
                        stack: f.stack.drop_last(),
                        pc: (f.pc + width) as usize,
                        ..f
                    },
                    ..m
                },
            }
        }
    }
}

// ---------------------------------------------------------------------------
// Branches
// ---------------------------------------------------------------------------
/// The type and number of the values that a branch pops.
pub open spec fn branch_operands(op: u8) -> Option<(char, int)> {
    if Opcode::IFEQ <= op <= Opcode::IFLE {
        Some(('I', 1))
    } else if Opcode::IF_ICMPEQ <= op <= Opcode::IF_ICMPLE {
        Some(('I', 2))
    } else if op == Opcode::IF_ACMPEQ || op == Opcode::IF_ACMPNE {
        Some(('A', 2))
    } else if op == Opcode::IFNULL || op == Opcode::IFNONNULL {
        Some(('A', 1))
    } else if op == Opcode::GOTO || op == Opcode::GOTO_W {
        Some(('A', 0))
    } else {
        None
    }
}

/// The outcome of the comparison that the relation number `rel` stands for:
/// 0 equal, 1 not equal, 2 less, 3 not less, 4 greater, 5 not greater.
pub open spec fn relation_holds(rel: int, a: int, b: int) -> bool {
    if rel == 0 {
        a == b
    } else if rel == 1 {
        a != b
    } else if rel == 2 {
        a < b
    } else if rel == 3 {
        a >= b
    } else if rel == 4 {
        a > b
    } else {
        a <= b
    }
}

/// Whether the branch `op` is taken on a stack that holds its operands.
pub open spec fn branch_taken(op: u8, s: Seq<JvmValue>) -> bool {
    if Opcode::IFEQ <= op <= Opcode::IFLE {
        relation_holds(op - Opcode::IFEQ, top(s).int_value() as int, 0)
    } else if Opcode::IF_ICMPEQ <= op <= Opcode::IF_ICMPLE {
        relation_holds(op - Opcode::IF_ICMPEQ, under(s).int_value() as int, top(s).int_value() as int)
    } else if op == Opcode::IF_ACMPEQ {
        under(s)->ObjRef_val == top(s)->ObjRef_val
    } else if op == Opcode::IF_ACMPNE {
        under(s)->ObjRef_val != top(s)->ObjRef_val
    } else if op == Opcode::IFNULL {
        top(s)->ObjRef_val == 0
    } else if op == Opcode::IFNONNULL {
        top(s)->ObjRef_val != 0
    } else {
        true
    }
}

/// A branch pops its operands and then either goes to the place that lies
/// its signed offset away from the first byte of that offset, the one after
/// the operation code, or on to the next instruction.
pub open spec fn branch_step(m: MachineModel) -> Transition {
    let f = m.frame;
    let op = f.code[f.pc as int];
    let width: int = if op == Opcode::GOTO_W {
        5
    } else {
        3
    };
    let (tag, count) = branch_operands(op)->0;
    if f.pc + width > f.code.len() {
        Transition::Fails { error: FatalError::CodeOverrun }
    } else if count > 0 && !operands(f.stack, tag, count) {
        Transition::Fails { error: FatalError::BadOperands }
    } else {
        let rest = f.stack.take(f.stack.len() - count);
        if branch_taken(op, f.stack) {
            let offset = if op == Opcode::GOTO_W {
                word_at(f.code, f.pc + 1)
            } else {
                operand_i16(f.code, f.pc as int)
            };
            if 0 <= f.pc + 1 + offset < f.code.len() {
                Transition::Goes { to: jumped(m, rest, f.pc + 1 + offset) }
            } else {
                Transition::Fails { error: FatalError::BadBranch }
            }
        } else {
            Transition::Goes { to: advanced(m, rest, width) }
        }
    }
}

// ---------------------------------------------------------------------------
// Constants with operands
// ---------------------------------------------------------------------------
pub open spec fn is_constant_op(op: u8) -> bool {
    Opcode::BIPUSH <= op <= Opcode::LDC2_W
}

/// The 16-bit unit that stands for a character in a string object: the
/// character's own code where it fits, else the replacement character.
pub open spec fn char_unit(c: char) -> u16 {
    if c as u32 <= 0xffff {
        c as u16
    } else {
        0xfffdu16
    }
}

/// The slots of the array that stands for a string.
pub open spec fn string_slots(text: Seq<char>) -> Seq<JvmValue> {
    Seq::new(text.len(), |i: int| JvmValue::Char { val: char_unit(text[i]) })
}

/// The pool of the class that the running code belongs to.
pub open spec fn running_pool(m: MachineModel) -> Seq<CpModel> {
    if known(m.klasses, m.frame.klass_id) {
        m.klasses[m.frame.klass_id - 1].pool
    } else {
        Seq::empty()
    }
}

/// `bipush` and `sipush` push their signed operand as an integer. The `ldc`
/// family pushes the constant at a pool index: the short forms an integer, a
/// float or a string, the wide form a long or a double. A string constant
/// becomes a new array of its characters on the heap.
pub open spec fn constant_step(m: MachineModel) -> Transition {
    let f = m.frame;
    let op = f.code[f.pc as int];
    let width: int = if op == Opcode::BIPUSH || op == Opcode::LDC {
        2
    } else {
        3
    };
    if f.pc + width > f.code.len() {
        Transition::Fails { error: FatalError::CodeOverrun }
    } else if op == Opcode::BIPUSH {
        Transition::Goes {
            to: advanced(
                m,
                f.stack.push(JvmValue::Int { val: signed_byte(f.code[f.pc + 1]) as i32 }),
                2,
            ),
        }
    } else if op == Opcode::SIPUSH {
        Transition::Goes {
            to: advanced(
                m,
                f.stack.push(JvmValue::Int { val: operand_i16(f.code, f.pc as int) as i32 }),
                3,
            ),
        }
    } else {
        let idx: int = if op == Opcode::LDC {
            f.code[f.pc + 1] as int
        } else {
            operand_u16(f.code, f.pc as int)
        };
        let pool = running_pool(m);
        if idx >= pool.len() {
            Transition::Fails { error: FatalError::BadConstant }
        } else {
            match pool[idx] {
                CpModel::IntConst { val } => if op != Opcode::LDC2_W {
                    Transition::Goes { to: advanced(m, f.stack.push(JvmValue::Int { val }), width) }
                } else {
                    Transition::Fails { error: FatalError::BadConstant }
                },
                CpModel::FloatConst { val } => if op != Opcode::LDC2_W {
                    Transition::Goes {
                        to: advanced(m, f.stack.push(JvmValue::Float { val }), width),
                    }
                } else {
                    Transition::Fails { error: FatalError::BadConstant }
                },
                CpModel::LongConst { val } => if op == Opcode::LDC2_W {
                    Transition::Goes {
                        to: advanced(m, f.stack.push(JvmValue::Long { val }), width),
                    }
                } else {
                    Transition::Fails { error: FatalError::BadConstant }
                },
                CpModel::DoubleConst { val } => if op == Opcode::LDC2_W {
                    Transition::Goes {
                        to: advanced(m, f.stack.push(JvmValue::Double { val }), width),
                    }
                } else {
                    Transition::Fails { error: FatalError::BadConstant }
                },
                CpModel::StringConst { idx: text_idx } => if op == Opcode::LDC2_W {
                    Transition::Fails { error: FatalError::BadConstant }
                } else {
                    match pool_text(pool, text_idx as int) {
                        None => Transition::Fails { error: FatalError::BadConstant },
                        Some(text) => if m.objects.len() >= usize::MAX {
                            Transition::Fails { error: FatalError::OutOfMemory }
                        } else {
                            Transition::Goes {
                                to: MachineModel {
                                    objects: m.objects.push(
                                        ObjModel::Array { elem: 'C', slots: string_slots(text) },
                                    ),
                                    ..advanced(
                                        m,
                                        f.stack.push(
                                            JvmValue::ObjRef { val: (m.objects.len() + 1) as u64 },
                                        ),
                                        width,
                                    )
                                },
                            }
                        },
                    }
                },
                _ => Transition::Fails { error: FatalError::BadConstant },
            }
        }
    }
}

// ---------------------------------------------------------------------------
// Floating point, left to the host
// ---------------------------------------------------------------------------
/// For an operation of floating-point arithmetic, which the host computes:
/// the type and number of its operands and the type of its result, as
/// descriptor letters.
pub open spec fn host_signature(op: u8) -> Option<(char, int, char)> {
    if op == Opcode::FADD || op == Opcode::FSUB || op == Opcode::FMUL || op == Opcode::FDIV || op
        == Opcode::FREM {
        Some(('F', 2, 'F'))
    } else if op == Opcode::DADD || op == Opcode::DSUB || op == Opcode::DMUL || op == Opcode::DDIV
        || op == Opcode::DREM {
        Some(('D', 2, 'D'))
    } else {
        None
    }
}

/// An operation of floating-point arithmetic whose operands are in place is
/// handed to the host.
pub open spec fn compute_step(m: MachineModel) -> Transition {
    let f = m.frame;
    let op = f.code[f.pc as int];
    let (tag, count, _) = host_signature(op)->0;
    if operands(f.stack, tag, count) {
        Transition::Asks { request: HostRequest::Compute { op } }
    } else {
        Transition::Fails { error: FatalError::BadOperands }
    }
}

// ---------------------------------------------------------------------------
// Returns
// ---------------------------------------------------------------------------
/// The type of the value that a return takes from the stack; `'V'` where it
/// takes none.
pub open spec fn return_tag(op: u8) -> Option<char> {
    if op == Opcode::IRETURN {
        Some('I')
    } else if op == Opcode::LRETURN {
        Some('J')
    } else if op == Opcode::FRETURN {
        Some('F')
    } else if op == Opcode::DRETURN {
        Some('D')
    } else if op == Opcode::ARETURN {
        Some('A')
    } else if op == Opcode::RETURN {
        Some('V')
    } else {
        None
    }
}

/// The stack with the value on it, if there is one.
pub open spec fn with_result(s: Seq<JvmValue>, value: Option<JvmValue>) -> Seq<JvmValue> {
    match value {
        Some(v) => s.push(v),
        None => s,
    }
}

/// A return ends the running activation. Its value, if it has one, goes on
/// the stack of the activation that waits for it; the return of the
/// outermost activation ends the run. What is returned as an integer is an
/// integer, whatever narrower type stood for it.
pub open spec fn return_step(m: MachineModel) -> Transition {
    let f = m.frame;
    let op = f.code[f.pc as int];
    let tag = return_tag(op)->0;
    if tag != 'V' && !operands(f.stack, tag, 1) {
        Transition::Fails { error: FatalError::BadOperands }
    } else {
        let value = if tag == 'V' {
            None
        } else if tag == 'I' {
            Some(JvmValue::Int { val: top(f.stack).int_value() })
        } else {
            Some(top(f.stack))
        };
        if m.callers.len() == 0 {
            Transition::Returns { value }
        } else {
            let caller = m.callers.last();
            Transition::Goes {
                to: MachineModel {
                    frame: FrameModel { stack: with_result(caller.stack, value), ..caller },
                    callers: m.callers.drop_last(),
                    ..m
                },
            }
        }
    }
}

// ---------------------------------------------------------------------------
// Invocations
// ---------------------------------------------------------------------------
pub open spec fn is_invoke(op: u8) -> bool {
    op == Opcode::INVOKEVIRTUAL || op == Opcode::INVOKESPECIAL || op == Opcode::INVOKESTATIC || op
        == Opcode::INVOKEINTERFACE
}

/// What an invocation needs to know before it is made.
pub struct InvokePlan {
    /// The method to run.
    pub site: MethodSite,
    /// How many values come off the stack: the arguments and, if the method
    /// is not called statically, the receiver below them.
    pub taken: int,
    /// How many bytes the instruction takes.
    pub width: int,
}

/// Resolves the invocation that the running activation stands at:
/// - the operand is the pool index of a method reference;
/// - its descriptor says how many arguments lie on the stack;
/// - a static and a special invocation run the method that the reference
///   names exactly; the others look at the class of the receiver and run the
///   method of that name and descriptor that is nearest to it going up.
pub open spec fn invoke_plan(m: MachineModel) -> Result<InvokePlan, FatalError> {
    let f = m.frame;
    let op = f.code[f.pc as int];
    let width: int = if op == Opcode::INVOKEINTERFACE {
        5
    } else {
        3
    };
    if f.pc + width > f.code.len() {
        Err(FatalError::CodeOverrun)
    } else {
        let idx = operand_u16(f.code, f.pc as int) as u16;
        match method_ref_name_desc(m.klasses, f.klass_id, idx) {
            None => Err(FatalError::BadConstant),
            Some(name_desc) => match arity(name_desc) {
                None => Err(FatalError::BadDescriptor),
                Some(n) => {
                    let taken: int = if op == Opcode::INVOKESTATIC {
                        n as int
                    } else {
                        n as int + 1
                    };
                    if f.stack.len() < taken {
                        Err(FatalError::BadOperands)
                    } else if op == Opcode::INVOKESTATIC {
                        match exact_target(m.klasses, f.klass_id, idx) {
                            Some(site) => Ok(InvokePlan { site, taken, width }),
                            None => Err(FatalError::UnknownMethod),
                        }
                    } else {
                        let receiver = f.stack[f.stack.len() - taken];
                        if !(receiver is ObjRef) {
                            Err(FatalError::BadOperands)
                        } else if receiver->ObjRef_val == 0 {
                            Err(FatalError::NullReference)
                        } else if op == Opcode::INVOKESPECIAL {
                            match exact_target(m.klasses, f.klass_id, idx) {
                                Some(site) => Ok(InvokePlan { site, taken, width }),
                                None => Err(FatalError::UnknownMethod),
                            }
                        } else if !live(m.objects, receiver->ObjRef_val) || !(target(
                            m.objects,
                            receiver->ObjRef_val,
                        ) is Instance) {
                            Err(FatalError::BadReference)
                        } else {
                            match resolve_virtual(
                                m.klasses,
                                target(m.objects, receiver->ObjRef_val)->klass_id,
                                name_desc,
                                m.klasses.len(),
                            ) {
                                Some(site) => Ok(InvokePlan { site, taken, width }),
                                None => Err(FatalError::UnknownMethod),
                            }
                        }
                    }
                },
            },
        }
    }
}

/// The method at a site.
pub open spec fn method_at(klasses: Seq<KlassModel>, site: MethodSite) -> MethodModel {
    klasses[site.klass_id - 1].methods[site.at as int]
}

/// The local variables of a new activation: the arguments first, in the order
/// they were pushed, then defaults.
pub open spec fn entry_locals(args: Seq<JvmValue>, size: int) -> Seq<JvmValue> {
    Seq::new(
        size as nat,
        |i: int|
            if i < args.len() {
                args[i]
            } else {
                JvmValue::Int { val: 0 }
            },
    )
}

/// An invocation of a native method is handed to the host. Any other starts
/// an activation of the method with an empty stack and the arguments in its
/// first local variables; the invoking activation waits, past its
/// instruction and without the arguments.
pub open spec fn invoke_step(m: MachineModel) -> Transition {
    let f = m.frame;
    match invoke_plan(m) {
        Err(error) => Transition::Fails { error },
        Ok(plan) => {
            let callee = method_at(m.klasses, plan.site);
            if callee.is_native() {
                Transition::Asks { request: HostRequest::Native { site: plan.site } }
            } else if plan.taken > callee.max_locals {
                Transition::Fails { error: FatalError::BadLocal }
            } else {
                let args = f.stack.subrange(f.stack.len() - plan.taken, f.stack.len() as int);
                Transition::Goes {
                    to: MachineModel {
                        frame: FrameModel {
                            klass_id: plan.site.klass_id,
                            code: callee.code,
                            pc: 0,
                            stack: Seq::empty(),
                            lvt: entry_locals(args, callee.max_locals as int),
                        },
                        callers: m.callers.push(
                            FrameModel {
                                stack: f.stack.take(f.stack.len() - plan.taken),
                                pc: (f.pc + plan.width) as usize,
                                ..f
                            },
                        ),
                        ..m
                    },
                }
            }
        },
    }
}

// ---------------------------------------------------------------------------
// Objects
// ---------------------------------------------------------------------------
pub open spec fn is_object_op(op: u8) -> bool {
    Opcode::GETSTATIC <= op <= Opcode::PUTFIELD || op == Opcode::NEW || op == Opcode::CHECKCAST
        || op == Opcode::INSTANCEOF
}

/// The instance that `v` refers to, or why there is none.
pub open spec fn instance_of(objects: Seq<ObjModel>, v: JvmValue) -> Result<ObjModel, FatalError> {
    if !(v is ObjRef) {
        Err(FatalError::BadOperands)
    } else if v->ObjRef_val == 0 {
        Err(FatalError::NullReference)
    } else if !live(objects, v->ObjRef_val) || !(target(objects, v->ObjRef_val) is Instance) {
        Err(FatalError::BadReference)
    } else {
        Ok(target(objects, v->ObjRef_val))
    }
}

/// `new` makes an instance of the class that a pool entry names.
pub open spec fn new_step(m: MachineModel) -> Transition {
    let f = m.frame;
    let idx = operand_u16(f.code, f.pc as int) as u16;
    match klass_target(m.klasses, f.klass_id, idx) {
        None => Transition::Fails { error: FatalError::UnknownKlass },
        Some(id) => if m.objects.len() >= usize::MAX {
            Transition::Fails { error: FatalError::OutOfMemory }
        } else {
            Transition::Goes {
                to: MachineModel {
                    objects: m.objects.push(
                        ObjModel::Instance {
                            klass_id: m.klasses[id - 1].id,
                            slots: m.klasses[id - 1].instance_defaults(),
                        },
                    ),
                    ..advanced(
                        m,
                        f.stack.push(JvmValue::ObjRef { val: (m.objects.len() + 1) as u64 }),
                        3,
                    )
                },
            }
        },
    }
}

/// `getfield` replaces a reference by the slot of the instance that the
/// field's offset names; `putfield` stores the top value there and takes off
/// both it and the reference below it.
pub open spec fn field_step(m: MachineModel) -> Transition {
    let f = m.frame;
    let op = f.code[f.pc as int];
    let idx = operand_u16(f.code, f.pc as int) as u16;
    match field_target(m.klasses, f.klass_id, idx) {
        None => Transition::Fails { error: FatalError::UnknownField },
        Some(site) => if site.is_static {
            Transition::Fails { error: FatalError::UnknownField }
        } else {
            let offset = m.klasses[site.klass_id - 1].fields[site.at as int].offset as int;
            let depth: int = if op == Opcode::GETFIELD {
                1
            } else {
                2
            };
            if f.stack.len() < depth {
                Transition::Fails { error: FatalError::BadOperands }
            } else {
                let r = f.stack[f.stack.len() - depth];
                match instance_of(m.objects, r) {
                    Err(error) => Transition::Fails { error },
                    Ok(obj) => if offset >= obj.slots().len() {
                        Transition::Fails { error: FatalError::BadIndex }
                    } else if op == Opcode::GETFIELD {
                        Transition::Goes {
                            to: advanced(m, replaced(f.stack, 1, obj.slots()[offset]), 3),
                        }
                    } else {
                        Transition::Goes {
                            to: MachineModel {
                                objects: m.objects.update(
                                    r->ObjRef_val - 1,
                                    obj.with_slot(offset, top(f.stack)),
                                ),
                                ..advanced(m, f.stack.take(f.stack.len() - 2), 3)
                            },
                        }
                    },
                }
            }
        },
    }
}

/// `getstatic` pushes the value that the class holds for the field;
/// `putstatic` pops a value into it.
pub open spec fn static_step(m: MachineModel) -> Transition {
    let f = m.frame;
    let op = f.code[f.pc as int];
    let idx = operand_u16(f.code, f.pc as int) as u16;
    match field_target(m.klasses, f.klass_id, idx) {
        None => Transition::Fails { error: FatalError::UnknownField },
        Some(site) => if !site.is_static || !known(m.klasses, site.klass_id) || site.at
            >= m.klasses[site.klass_id - 1].statics.len() {
            Transition::Fails { error: FatalError::UnknownField }
        } else {
            let k = m.klasses[site.klass_id - 1];
            if op == Opcode::GETSTATIC {
                Transition::Goes {
                    to: advanced(m, f.stack.push(k.statics[site.at as int].value), 3),
                }
            } else if f.stack.len() == 0 {
                Transition::Fails { error: FatalError::BadOperands }
            } else {
                Transition::Goes {
                    to: MachineModel {
                        klasses: m.klasses.update(
                            site.klass_id - 1,
                            KlassModel {
                                statics: k.statics.update(
                                    site.at as int,
                                    StaticModel {
                                        value: top(f.stack),
                                        ..k.statics[site.at as int]
                                    },
                                ),
                                ..k
                            },
                        ),
                        ..advanced(m, f.stack.drop_last(), 3)
                    },
                }
            }
        },
    }
}

/// `instanceof` replaces a reference by 1 if it leads to an instance of the
/// class named or of a subclass of it, else by 0. `checkcast` leaves the
/// stack as it is and fails where `instanceof` would give 0 for a reference
/// that is not null.
pub open spec fn cast_step(m: MachineModel) -> Transition {
    let f = m.frame;
    let op = f.code[f.pc as int];
    let idx = operand_u16(f.code, f.pc as int) as u16;
    match klass_target(m.klasses, f.klass_id, idx) {
        None => Transition::Fails { error: FatalError::UnknownKlass },
        Some(id) => if !operands(f.stack, 'A', 1) {
            Transition::Fails { error: FatalError::BadOperands }
        } else {
            let r = top(f.stack)->ObjRef_val;
            if r != 0 && !live(m.objects, r) {
                Transition::Fails { error: FatalError::BadReference }
            } else {
                let fits = r != 0 && target(m.objects, r) is Instance && descends_from(
                    m.klasses,
                    target(m.objects, r)->klass_id,
                    id,
                    m.klasses.len(),
                );
                if op == Opcode::INSTANCEOF {
                    Transition::Goes {
                        to: advanced(
                            m,
                            replaced(
                                f.stack,
                                1,
                                JvmValue::Int {
                                    val: if fits {
                                        1i32
                                    } else {
                                        0i32
                                    },
                                },
                            ),
                            3,
                        ),
                    }
                } else if r == 0 || fits {
                    Transition::Goes { to: advanced(m, f.stack, 3) }
                } else {
                    Transition::Fails { error: FatalError::BadCast }
                }
            }
        },
    }
}

pub open spec fn object_step(m: MachineModel) -> Transition {
    let f = m.frame;
    let op = f.code[f.pc as int];
    if f.pc + 3 > f.code.len() {
        Transition::Fails { error: FatalError::CodeOverrun }
    } else if op == Opcode::NEW {
        new_step(m)
    } else if op == Opcode::GETFIELD || op == Opcode::PUTFIELD {
        field_step(m)
    } else if op == Opcode::GETSTATIC || op == Opcode::PUTSTATIC {
        static_step(m)
    } else {
        cast_step(m)
    }
}

// ---------------------------------------------------------------------------
// Arrays
// ---------------------------------------------------------------------------
pub open spec fn is_array_op(op: u8) -> bool {
    Opcode::IALOAD <= op <= Opcode::SALOAD || Opcode::IASTORE <= op <= Opcode::SASTORE || op
        == Opcode::NEWARRAY || op == Opcode::ANEWARRAY || op == Opcode::ARRAYLENGTH
}

/// The element type that the type code of `newarray` stands for.
pub open spec fn array_type(code: u8) -> Option<char> {
    if code == 4 {
        Some('Z')
    } else if code == 5 {
        Some('C')
    } else if code == 6 {
        Some('F')
    } else if code == 7 {
        Some('D')
    } else if code == 8 {
        Some('B')
    } else if code == 9 {
        Some('S')
    } else if code == 10 {
        Some('I')
    } else if code == 11 {
        Some('J')
    } else {
        None
    }
}

/// The place of an element access in its family, which names the element
/// type: int, long, float, double, reference, byte, char, short.
pub open spec fn access_kind(op: u8) -> int {
    if Opcode::IALOAD <= op <= Opcode::SALOAD {
        op - Opcode::IALOAD
    } else {
        op - Opcode::IASTORE
    }
}

/// Whether an access of the given kind may touch an array of `elem`. The
/// byte access serves boolean arrays too.
pub open spec fn kind_fits(kind: int, elem: char) -> bool {
    if kind == 0 {
        elem == 'I'
    } else if kind == 1 {
        elem == 'J'
    } else if kind == 2 {
        elem == 'F'
    } else if kind == 3 {
        elem == 'D'
    } else if kind == 4 {
        elem == 'A'
    } else if kind == 5 {
        elem == 'B' || elem == 'Z'
    } else if kind == 6 {
        elem == 'C'
    } else {
        elem == 'S'
    }
}

/// What a load pushes for an element: the element itself, but an integer of
/// the same value for a boolean, byte, char or short.
pub open spec fn widened(v: JvmValue) -> JvmValue {
    match v {
        JvmValue::Boolean { val } => JvmValue::Int {
            val: if val {
                1i32
            } else {
                0i32
            },
        },
        JvmValue::Byte { val } => JvmValue::Int { val: val as i32 },
        JvmValue::Short { val } => JvmValue::Int { val: val as i32 },
        JvmValue::Char { val } => JvmValue::Int { val: val as i32 },
        _ => v,
    }
}

/// What a store puts in an element of type `elem` for the value `v`, or
/// nothing if the value has the wrong type. An element of an integer type
/// takes any value that can stand for an integer; of that the narrower types
/// keep the low bits.
pub open spec fn narrowed(elem: char, v: JvmValue) -> Option<JvmValue> {
    if elem == 'Z' || elem == 'B' || elem == 'C' || elem == 'S' || elem == 'I' {
        if v.is_int_like() {
            if elem == 'Z' {
                Some(JvmValue::Boolean { val: v.int_value() & 1 == 1 })
            } else if elem == 'B' {
                Some(JvmValue::Byte { val: int_to_byte(v.int_value()) })
            } else if elem == 'C' {
                Some(JvmValue::Char { val: int_to_char(v.int_value()) })
            } else if elem == 'S' {
                Some(JvmValue::Short { val: int_to_short(v.int_value()) })
            } else {
                Some(JvmValue::Int { val: v.int_value() })
            }
        } else {
            None
        }
    } else if v.spec_name() == elem {
        Some(v)
    } else {
        None
    }
}

/// The array that `v` refers to, or why there is none.
pub open spec fn array_of(objects: Seq<ObjModel>, v: JvmValue) -> Result<ObjModel, FatalError> {
    if !(v is ObjRef) {
        Err(FatalError::BadOperands)
    } else if v->ObjRef_val == 0 {
        Err(FatalError::NullReference)
    } else if !live(objects, v->ObjRef_val) || !(target(objects, v->ObjRef_val) is Array) {
        Err(FatalError::BadReference)
    } else {
        Ok(target(objects, v->ObjRef_val))
    }
}

/// `newarray` and `anewarray` replace a length by a reference to a new array
/// of that many default elements.
pub open spec fn new_array_step(m: MachineModel) -> Transition {
    let f = m.frame;
    let op = f.code[f.pc as int];
    let width: int = if op == Opcode::NEWARRAY {
        2
    } else {
        3
    };
    if f.pc + width > f.code.len() {
        Transition::Fails { error: FatalError::CodeOverrun }
    } else {
        let elem = if op == Opcode::NEWARRAY {
            array_type(f.code[f.pc + 1])
        } else {
            Some('A')
        };
        if elem is None {
            Transition::Fails { error: FatalError::BadArrayType }
        } else if !operands(f.stack, 'I', 1) {
            Transition::Fails { error: FatalError::BadOperands }
        } else if top(f.stack).int_value() < 0 {
            Transition::Fails { error: FatalError::NegativeArraySize }
        } else if m.objects.len() >= usize::MAX {
            Transition::Fails { error: FatalError::OutOfMemory }
        } else {
            Transition::Goes {
                to: MachineModel {
                    objects: m.objects.push(
                        ObjModel::Array {
                            elem: elem->0,
                            slots: array_slots(elem->0, top(f.stack).int_value() as int),
                        },
                    ),
                    ..advanced(
                        m,
                        replaced(
                            f.stack,
                            1,
                            JvmValue::ObjRef { val: (m.objects.len() + 1) as u64 },
                        ),
                        width,
                    )
                },
            }
        }
    }
}

/// `arraylength` replaces a reference to an array by its length.
pub open spec fn array_length_step(m: MachineModel) -> Transition {
    let f = m.frame;
    if f.stack.len() == 0 {
        Transition::Fails { error: FatalError::BadOperands }
    } else {
        match array_of(m.objects, top(f.stack)) {
            Err(error) => Transition::Fails { error },
            Ok(array) => if array.slots().len() > i32::MAX {
                Transition::Fails { error: FatalError::BadIndex }
            } else {
                Transition::Goes {
                    to: advanced(
                        m,
                        replaced(f.stack, 1, JvmValue::Int { val: array.slots().len() as i32 }),
                        1,
                    ),
                }
            },
        }
    }
}

/// An element load replaces a reference and an index by the element there.
pub open spec fn array_load_step(m: MachineModel) -> Transition {
    let f = m.frame;
    let op = f.code[f.pc as int];
    if f.stack.len() < 2 || !top(f.stack).is_int_like() {
        Transition::Fails { error: FatalError::BadOperands }
    } else {
        match array_of(m.objects, under(f.stack)) {
            Err(error) => Transition::Fails { error },
            Ok(array) => {
                let at = top(f.stack).int_value() as int;
                if !kind_fits(access_kind(op), array->elem) {
                    Transition::Fails { error: FatalError::BadOperands }
                } else if !(0 <= at < array.slots().len()) {
                    Transition::Fails { error: FatalError::BadIndex }
                } else {
                    Transition::Goes {
                        to: advanced(m, replaced(f.stack, 2, widened(array.slots()[at])), 1),
                    }
                }
            },
        }
    }
}

/// An element store takes off a reference, an index and a value, and puts
/// the value in the element there.
pub open spec fn array_store_step(m: MachineModel) -> Transition {
    let f = m.frame;
    let op = f.code[f.pc as int];
    if f.stack.len() < 3 || !under(f.stack).is_int_like() {
        Transition::Fails { error: FatalError::BadOperands }
    } else {
        let r = f.stack[f.stack.len() - 3];
        match array_of(m.objects, r) {
            Err(error) => Transition::Fails { error },
            Ok(array) => {
                let at = under(f.stack).int_value() as int;
                if !kind_fits(access_kind(op), array->elem) {
                    Transition::Fails { error: FatalError::BadOperands }
                } else {
                    match narrowed(array->elem, top(f.stack)) {
                        None => Transition::Fails { error: FatalError::BadOperands },
                        Some(v) => if !(0 <= at < array.slots().len()) {
                            Transition::Fails { error: FatalError::BadIndex }
                        } else {
                            Transition::Goes {
                                to: MachineModel {
                                    objects: m.objects.update(
                                        r->ObjRef_val - 1,
                                        array.with_slot(at, v),
                                    ),
                                    ..advanced(m, f.stack.take(f.stack.len() - 3), 1)
                                },
                            }
                        },
                    }
                }
            },
        }
    }
}

pub open spec fn array_step(m: MachineModel) -> Transition {
    let op = m.frame.code[m.frame.pc as int];
    if op == Opcode::NEWARRAY || op == Opcode::ANEWARRAY {
        new_array_step(m)
    } else if op == Opcode::ARRAYLENGTH {
        array_length_step(m)
    } else if Opcode::IALOAD <= op <= Opcode::SALOAD {
        array_load_step(m)
    } else {
        array_store_step(m)
    }
}

// ---------------------------------------------------------------------------
// Throwing and locking
// ---------------------------------------------------------------------------
pub open spec fn is_reference_op(op: u8) -> bool {
    op == Opcode::ATHROW || op == Opcode::MONITORENTER || op == Opcode::MONITOREXIT
}

/// Each of these takes a reference that is not null. A throw ends the run:
/// there are no handlers that could catch what is thrown. Entering and
/// leaving a monitor only pops the reference: one thread needs no locks.
pub open spec fn reference_step(m: MachineModel) -> Transition {
    let f = m.frame;
    let op = f.code[f.pc as int];
    if !operands(f.stack, 'A', 1) {
        Transition::Fails { error: FatalError::BadOperands }
    } else if top(f.stack)->ObjRef_val == 0 {
        Transition::Fails { error: FatalError::NullReference }
    } else if op == Opcode::ATHROW {
        Transition::Fails { error: FatalError::Uncaught }
    } else {
        Transition::Goes { to: advanced(m, f.stack.drop_last(), 1) }
    }
}

// ---------------------------------------------------------------------------
// Switches
// ---------------------------------------------------------------------------
pub open spec fn is_switch(op: u8) -> bool {
    op == Opcode::TABLESWITCH || op == Opcode::LOOKUPSWITCH
}

/// Where the table of a switch at `pc` starts: at the first place after the
/// operation code that is a multiple of four.
pub open spec fn table_base(pc: int) -> int {
    pc + 1 + (4 - (pc + 1) % 4) % 4
}

/// The offset that goes with `key` among the `pairs` pairs of key and offset
/// from `at` on, looking at them in order from the pair `i`.
pub open spec fn paired_offset(code: Seq<u8>, at: int, pairs: int, key: int, i: int) -> Option<int>
    decreases pairs - i,
{
    if i < 0 || i >= pairs {
        None
    } else if word_at(code, at + 8 * i) == key {
        Some(word_at(code, at + 8 * i + 4))
    } else {
        paired_offset(code, at, pairs, key, i + 1)
    }
}

/// The offset that a switch picks for `key`, or nothing if its table is cut
/// off or malformed.
/// - A table switch holds a default offset, a lowest and a highest key, and
///   one offset for each key from the lowest to the highest.
/// - A lookup switch holds a default offset, a number of pairs, and the pairs
///   of key and offset; the first pair with the key counts.
pub open spec fn switch_offset(op: u8, code: Seq<u8>, pc: int, key: int) -> Option<int> {
    let base = table_base(pc);
    if op == Opcode::TABLESWITCH {
        if base + 12 > code.len() {
            None
        } else {
            let low = word_at(code, base + 4);
            let high = word_at(code, base + 8);
            if low > high || base + 12 + 4 * (high - low + 1) > code.len() {
                None
            } else if low <= key <= high {
                Some(word_at(code, base + 12 + 4 * (key - low)))
            } else {
                Some(word_at(code, base))
            }
        }
    } else {
        if base + 8 > code.len() {
            None
        } else {
            let pairs = word_at(code, base + 4);
            if pairs < 0 || base + 8 + 8 * pairs > code.len() {
                None
            } else {
                match paired_offset(code, base + 8, pairs, key, 0) {
                    Some(offset) => Some(offset),
                    None => Some(word_at(code, base)),
                }
            }
        }
    }
}

/// A switch pops an integer and goes to the place that lies the offset picked
/// for it away from the byte after the operation code.
pub open spec fn switch_step(m: MachineModel) -> Transition {
    let f = m.frame;
    let op = f.code[f.pc as int];
    if !operands(f.stack, 'I', 1) {
        Transition::Fails { error: FatalError::BadOperands }
    } else {
        match switch_offset(op, f.code, f.pc as int, top(f.stack).int_value() as int) {
            None => Transition::Fails { error: FatalError::CodeOverrun },
            Some(offset) => if 0 <= f.pc + 1 + offset < f.code.len() {
                Transition::Goes { to: jumped(m, f.stack.drop_last(), f.pc + 1 + offset) }
            } else {
                Transition::Fails { error: FatalError::BadBranch }
            },
        }
    }
}

// ---------------------------------------------------------------------------
// The step
// ---------------------------------------------------------------------------
/// What the machine does next in the state `m`: it performs the instruction
/// that the program counter of the running activation stands at.
pub open spec fn next(m: MachineModel) -> Transition {
    let f = m.frame;
    if f.pc >= f.code.len() {
        Transition::Fails { error: FatalError::CodeOverrun }
    } else {
        let op = f.code[f.pc as int];
        match stack_effect(op, f.stack) {
            Some(Ok(stack)) => Transition::Goes { to: advanced(m, stack, 1) },
            Some(Err(error)) => Transition::Fails { error },
            None => if is_local_op(op) {
                local_step(m)
            } else if branch_operands(op) is Some {
                branch_step(m)
            } else if is_constant_op(op) {
                constant_step(m)
            } else if host_signature(op) is Some {
                compute_step(m)
            } else if return_tag(op) is Some {
                return_step(m)
            } else if is_invoke(op) {
                invoke_step(m)
            } else if is_object_op(op) {
                object_step(m)
            } else if is_array_op(op) {
                array_step(m)
            } else if is_switch(op) {
                switch_step(m)
            } else if is_reference_op(op) {
                reference_step(m)
            } else {
                Transition::Fails { error: FatalError::BadOpcode }
            },
        }
    }
}

/// What becomes of the state `m` when the host hands in `result` for the
/// operation of floating-point arithmetic that the machine stands at: the operands make
/// way for it. A result of the wrong type is refused, and so is any result
/// where the machine asked for none.
pub open spec fn computed(m: MachineModel, result: JvmValue) -> Transition {
    let f = m.frame;
    if next(m) is Asks && next(m)->request is Compute {
        let (_, count, out) = host_signature(f.code[f.pc as int])->0;
        if result.spec_name() == out {
            Transition::Goes { to: advanced(m, replaced(f.stack, count, result), 1) }
        } else {
            Transition::Fails { error: FatalError::BadOperands }
        }
    } else {
        Transition::Fails { error: FatalError::BadOpcode }
    }
}

/// What becomes of the state `m` when the host has run the native method
/// that the machine stands at: the arguments make way for what the method
/// returned.
pub open spec fn answered(m: MachineModel, result: Option<JvmValue>) -> Transition {
    let f = m.frame;
    if next(m) is Asks && next(m)->request is Native {
        let plan = invoke_plan(m)->Ok_0;
        Transition::Goes {
            to: advanced(m, with_result(f.stack.take(f.stack.len() - plan.taken), result), plan.width),
        }
    } else {
        Transition::Fails { error: FatalError::BadOpcode }
    }
}

/// The state after at most `fuel` steps, and what the last of them came to.
/// The run stops at the first step that does not simply go on.
pub open spec fn run_of(m: MachineModel, fuel: nat) -> (MachineModel, Option<Transition>)
    decreases fuel,
{
    if fuel == 0 {
        (m, None)
    } else {
        match next(m) {
            Transition::Goes { to } => run_of(to, (fuel - 1) as nat),
            other => (m, Some(other)),
        }
    }
}

// ---------------------------------------------------------------------------
// Stack discipline
// ---------------------------------------------------------------------------
/// How many values the instruction `op` takes off the stack of the activation
/// that performs it, and how many it puts on, where the top of the stack is
/// wide or not. Invocations and returns, which change the running
/// activation, and floating-point arithmetic, which the host completes, are
/// not in this table.
pub open spec fn instruction_arity(op: u8, wide_top: bool) -> Option<(int, int)> {
    if stack_effect(op, Seq::empty()) is Some {
        Some(stack_arity(op, wide_top))
    } else if load_width(op) is Some {
        Some((0, 1))
    } else if store_width(op) is Some {
        Some((1, 0))
    } else if op == Opcode::IINC {
        Some((0, 0))
    } else if branch_operands(op) is Some {
        let (_, count) = branch_operands(op)->0;
        Some((count, 0))
    } else if is_constant_op(op) || op == Opcode::NEW || op == Opcode::GETSTATIC {
        Some((0, 1))
    } else if op == Opcode::PUTSTATIC || is_switch(op) || op == Opcode::MONITORENTER || op
        == Opcode::MONITOREXIT {
        Some((1, 0))
    } else if op == Opcode::GETFIELD || op == Opcode::INSTANCEOF || op == Opcode::CHECKCAST || op
        == Opcode::NEWARRAY || op == Opcode::ANEWARRAY || op == Opcode::ARRAYLENGTH {
        Some((1, 1))
    } else if op == Opcode::PUTFIELD {
        Some((2, 0))
    } else if Opcode::IALOAD <= op <= Opcode::SALOAD {
        Some((2, 1))
    } else if Opcode::IASTORE <= op <= Opcode::SASTORE {
        Some((3, 0))
    } else {
        None
    }
}

/// Every instruction of the table that the machine performs changes the
/// height of the stack by what it puts on less what it takes off, leaves what
/// lies below its operands as it was, and leaves the waiting activations
/// alone.
pub proof fn lemma_step_discipline(m: MachineModel)
    requires
        next(m) is Goes,
        instruction_arity(
            m.frame.code[m.frame.pc as int],
            m.frame.stack.len() > 0 && is_wide(top(m.frame.stack)),
        ) is Some,
    ensures
        ({
            let before = m.frame.stack;
            let after = next(m)->to.frame.stack;
            let (taken, put) = instruction_arity(
                m.frame.code[m.frame.pc as int],
                before.len() > 0 && is_wide(top(before)),
            )->0;
            &&& before.len() >= taken
            &&& after.len() == before.len() - taken + put
            &&& after.take(before.len() - taken) == before.take(before.len() - taken)
            &&& next(m)->to.callers == m.callers
        }),
{
    let before = m.frame.stack;
    let op = m.frame.code[m.frame.pc as int];
    let after = next(m)->to.frame.stack;
    let (taken, put) = instruction_arity(op, before.len() > 0 && is_wide(top(before)))->0;
    if stack_effect(op, before) is Some {
        lemma_stack_discipline(op, before);
    } else {
    }
}

/// An invocation that the machine performs leaves the invoking activation
/// waiting without the arguments it handed over, and the stack of the new
/// activation empty. A return puts at most one value on the stack of the
/// activation that waited.
pub proof fn lemma_call_discipline(m: MachineModel)
    requires
        next(m) is Goes,
        m.frame.pc < m.frame.code.len(),
        is_invoke(m.frame.code[m.frame.pc as int]) || return_tag(m.frame.code[m.frame.pc as int])
            is Some,
    ensures
        ({
            let to = next(m)->to;
            let op = m.frame.code[m.frame.pc as int];
            &&& is_invoke(op) ==> {
                &&& invoke_plan(m) is Ok
                &&& to.callers.len() == m.callers.len() + 1
                &&& to.callers.last().stack.len() == m.frame.stack.len() - invoke_plan(
                    m,
                )->Ok_0.taken
                &&& to.frame.stack.len() == 0
            }
            &&& return_tag(op) is Some ==> {
                &&& m.callers.len() > 0
                &&& to.callers == m.callers.drop_last()
                &&& to.frame.stack.len() == m.callers.last().stack.len() + (if op
                    == Opcode::RETURN {
                    0int
                } else {
                    1int
                })
            }
        }),
{
}

} // verus!
