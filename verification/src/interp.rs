use vstd::prelude::*;
use vstd::string::StrSliceExecFns;
use crate::arith::{byte_of_int, char_of_int, short_of_int};
use crate::constant_pool::CpEntry;
use crate::context::VmContext;
use crate::descriptor::parameter_count;
use crate::error::FatalError;
use crate::heap::{live, target, ObjModel, SharedSimpleHeap};
use crate::interp_stack::{operands, InterpEvalStack};
use crate::klass_repo::{known, name_index, MethodSite, SharedKlassRepo};
use crate::local_vars::{byte_as_signed, InterpLocalVars};
use crate::opcode::Opcode;
use crate::otklass::KlassModel;
use crate::otmethod::{MethodModel, OtMethod};
use crate::semantics::{
    answered, array_length_step, array_load_step, array_of, array_step, array_store_step,
    array_type, branch_operands, branch_step, branch_taken, cast_step, compute_step, computed,
    constant_step, entry_locals, field_step, host_signature, instance_of, invoke_plan, invoke_step,
    is_array_op, is_constant_op, is_invoke, is_local_op, is_object_op, is_reference_op, is_switch,
    kind_fits, local_step, method_at, narrowed, new_array_step, new_step, next, object_step,
    operand_i16, operand_u16, paired_offset, reference_step, relation_holds, return_step,
    return_tag, run_of, static_step, string_slots, switch_offset, switch_step, table_base, widened,
    word_at, FrameModel, HostRequest, MachineModel, Transition,
};
use crate::stack_ops::{apply_stack_op, stack_effect};
use crate::value::JvmValue;

verus! {

/// What a step of the machine reports.
#[derive(Clone, Copy, Debug, PartialEq, Eq)]
pub enum Step {
    /// The instruction was performed; the machine can go on.
    Next,
    /// The outermost method returned.
    Returned { value: Option<JvmValue> },
    /// The host has to act before the machine can go on.
    Host { request: HostRequest },
    /// The machine cannot go on.
    Fatal { error: FatalError },
}

/// Whether the report `s` and the state `after` are what the transition `t`
/// from the state `before` asks for.
pub open spec fn agrees(t: Transition, before: MachineModel, s: Step, after: MachineModel) -> bool {
    match t {
        Transition::Goes { to } => s is Next && after =~= to,
        Transition::Returns { value } => s == (Step::Returned { value }) && after =~= before,
        Transition::Asks { request } => s == (Step::Host { request }) && after =~= before,
        Transition::Fails { error } => s == (Step::Fatal { error }) && after =~= before,
    }
}

/// One method activation.
pub struct Frame {
    klass_id: usize,
    code: Vec<u8>,
    pc: usize,
    stack: InterpEvalStack,
    lvt: InterpLocalVars,
}

impl View for Frame {
    type V = FrameModel;

    closed spec fn view(&self) -> FrameModel {
        FrameModel {
            klass_id: self.klass_id,
            code: self.code@,
            pc: self.pc,
            stack: self.stack@,
            lvt: self.lvt@,
        }
    }
}

impl Frame {
    /// An activation that stands at the start of `code` with an empty stack.
    pub fn of(klass_id: usize, code: Vec<u8>, lvt: InterpLocalVars) -> (f: Frame)
        ensures
            f@ == (FrameModel { klass_id, code: code@, pc: 0, stack: Seq::empty(), lvt: lvt@ }),
    {
        Frame { klass_id, code, pc: 0, stack: InterpEvalStack::of(), lvt }
    }

    /// The byte `k` places after the operation code.
    fn byte(&self, k: usize) -> (b: u8)
        requires
            self.pc + k < self.code.len(),
        ensures
            b == self@.code[self@.pc + k],
    {
        self.code[self.pc + k]
    }

    fn u16_operand(&self) -> (v: u16)
        requires
            self.pc + 2 < self.code.len(),
        ensures
            v == operand_u16(self@.code, self@.pc as int),
    {
        (self.code[self.pc + 1] as u16) * 256 + (self.code[self.pc + 2] as u16)
    }

    fn i16_operand(&self) -> (v: i32)
        requires
            self.pc + 2 < self.code.len(),
        ensures
            v == operand_i16(self@.code, self@.pc as int),
    {
        let u = self.u16_operand();
        if u >= 32768 {
            u as i32 - 65536
        } else {
            u as i32
        }
    }

    /// The place that lies `offset` away from the byte after the operation
    /// code, if it is within the code.
    fn landing(&self, offset: i64) -> (to: Option<usize>)
        requires
            self.pc < self.code.len(),
            -0x8000_0000 <= offset < 0x8000_0000,
        ensures
            to matches Some(t) ==> t == self@.pc + 1 + offset && t < self@.code.len(),
            to is None ==> !(0 <= self@.pc + 1 + offset < self@.code.len()),
    {
        let from = self.pc + 1;
        if offset < 0 {
            let back = (0 - offset) as u64;
            if back > from as u64 {
                None
            } else {
                Some(from - back as usize)
            }
        } else if (offset as u64) >= (self.code.len() - from) as u64 {
            None
        } else {
            Some(from + offset as usize)
        }
    }

    /// Where the table of the switch at which the activation stands starts,
    /// if that is within the code.
    fn table_start(&self) -> (r: Option<usize>)
        requires
            self.pc < self.code.len(),
        ensures
            r matches Some(base) ==> base == table_base(self@.pc as int) && base <= self@.code.len(),
            r is None ==> table_base(self@.pc as int) > self@.code.len(),
    {
        let pad: usize = (4 - (self.pc % 4 + 1) % 4) % 4;
        assert(pad == (4 - (self.pc + 1) % 4) % 4);
        if self.code.len() - self.pc - 1 < pad {
            None
        } else {
            Some(self.pc + 1 + pad)
        }
    }

    /// The offset that the table switch whose table starts at `base` picks
    /// for `key`.
    fn pick_by_place(&self, base: usize, key: i32) -> (r: Option<i32>)
        requires
            self.pc < self.code.len(),
            base == table_base(self@.pc as int),
            base <= self.code.len(),
        ensures
            r matches Some(offset) ==> switch_offset(
                Opcode::TABLESWITCH,
                self@.code,
                self@.pc as int,
                key as int,
            ) == Some(offset as int),
            r is None ==> switch_offset(Opcode::TABLESWITCH, self@.code, self@.pc as int, key as int)
                is None,
    {
        let len = self.code.len();
        if len - base < 12 {
            return None;
        }
        let low = self.word(base + 4);
        let high = self.word(base + 8);
        if low > high {
            return None;
        }
        let count: u64 = (high as i64 - low as i64 + 1) as u64;
        let room: u64 = ((len - base - 12) / 4) as u64;
        if count > room {
            return None;
        }
        if low <= key && key <= high {
            let i: usize = (key as i64 - low as i64) as usize;
            Some(self.word(base + 12 + 4 * i))
        } else {
            Some(self.word(base))
        }
    }

    /// The offset that the lookup switch whose table starts at `base` picks
    /// for `key`.
    fn pick_by_key(&self, base: usize, key: i32) -> (r: Option<i32>)
        requires
            self.pc < self.code.len(),
            base == table_base(self@.pc as int),
            base <= self.code.len(),
        ensures
            r matches Some(offset) ==> switch_offset(
                Opcode::LOOKUPSWITCH,
                self@.code,
                self@.pc as int,
                key as int,
            ) == Some(offset as int),
            r is None ==> switch_offset(
                Opcode::LOOKUPSWITCH,
                self@.code,
                self@.pc as int,
                key as int,
            ) is None,
    {
        let len = self.code.len();
        if len - base < 8 {
            return None;
        }
        let pairs = self.word(base + 4);
        if pairs < 0 {
            return None;
        }
        let room: u64 = ((len - base - 8) / 8) as u64;
        if pairs as u64 > room {
            return None;
        }
        let at = base + 8;
        let n = pairs as usize;
        let mut i: usize = 0;
        while i < n
            invariant
                i <= n,
                n == pairs,
                at == base + 8,
                at + 8 * n <= len,
                len == self.code.len(),
                base == table_base(self@.pc as int),
                pairs == word_at(self@.code, base + 4),
                paired_offset(self@.code, at as int, pairs as int, key as int, 0) == paired_offset(
                    self@.code,
                    at as int,
                    pairs as int,
                    key as int,
                    i as int,
                ),
            decreases n - i,
        {
            if self.word(at + 8 * i) == key {
                return Some(self.word(at + 8 * i + 4));
            }
            i = i + 1;
        }
        Some(self.word(base))
    }

    fn word(&self, at: usize) -> (v: i32)
        requires
            at + 3 < self.code.len(),
        ensures
            v == word_at(self@.code, at as int),
    {
        let u: u32 = (self.code[at] as u32) * 16777216 + (self.code[at + 1] as u32) * 65536 + (
        self.code[at + 2] as u32) * 256 + (self.code[at + 3] as u32);
        if u >= 2147483648 {
            (u as i64 - 4294967296) as i32
        } else {
            u as i32
        }
    }
}

/// The activations as mathematical values, the outermost first.
pub open spec fn frame_models(frames: Seq<Frame>) -> Seq<FrameModel> {
    frames.map_values(|f: Frame| f@)
}

/// The machine: classes, objects, the running activation and those that wait
/// for it.
pub struct Machine {
    repo: SharedKlassRepo,
    heap: SharedSimpleHeap,
    frame: Frame,
    callers: Vec<Frame>,
}

impl View for Machine {
    type V = MachineModel;

    closed spec fn view(&self) -> MachineModel {
        MachineModel {
            klasses: self.repo@,
            objects: self.heap@,
            frame: self.frame@,
            callers: frame_models(self.callers@),
        }
    }
}

impl Machine {
    pub closed spec fn wf(&self) -> bool {
        self.repo.wf()
    }

    /// Whether the running activation stands at an instruction whose
    /// operation code is `op`.
    pub open spec fn stands_at(&self, op: u8) -> bool {
        self@.frame.pc < self@.frame.code.len() && self@.frame.code[self@.frame.pc as int] == op
    }

    /// An operation on the stack alone.
    fn stack_op(&mut self, op: u8) -> (s: Option<Step>)
        requires
            old(self).wf(),
            old(self).stands_at(op),
        ensures
            final(self).wf(),
            s is None <==> stack_effect(op, old(self)@.frame.stack) is None,
            s is None ==> final(self)@ == old(self)@,
            s matches Some(step) ==> agrees(next(old(self)@), old(self)@, step, final(self)@),
    {
        match apply_stack_op(&mut self.frame.stack, op) {
            None => None,
            Some(Ok(())) => {
                assert(self.frame.pc < self.frame.code.len());
                self.frame.pc = self.frame.pc + 1;
                Some(Step::Next)
            },
            Some(Err(error)) => Some(Step::Fatal { error }),
        }
    }

    /// A load from, a store into or an increment of a local variable.
    fn local_op(&mut self, op: u8) -> (s: Step)
        requires
            old(self).wf(),
            old(self).stands_at(op),
            is_local_op(op),
        ensures
            final(self).wf(),
            agrees(local_step(old(self)@), old(self)@, s, final(self)@),
    {
        let loads = Opcode::ILOAD <= op && op <= Opcode::ALOAD || Opcode::ILOAD_0 <= op && op
            <= Opcode::ALOAD_3;
        let short = Opcode::ILOAD_0 <= op && op <= Opcode::ALOAD_3 || Opcode::ISTORE_0 <= op && op
            <= Opcode::ASTORE_3;
        let width: usize = if op == Opcode::IINC {
            3
        } else if short {
            1
        } else {
            2
        };
        if self.frame.code.len() - self.frame.pc < width {
            return Step::Fatal { error: FatalError::CodeOverrun };
        }
        let idx: u8 = if Opcode::ILOAD_0 <= op && op <= Opcode::ALOAD_3 {
            (op - Opcode::ILOAD_0) % 4
        } else if Opcode::ISTORE_0 <= op && op <= Opcode::ASTORE_3 {
            (op - Opcode::ISTORE_0) % 4
        } else {
            self.frame.byte(1)
        };
        if idx as usize >= self.frame.lvt.len() {
            return Step::Fatal { error: FatalError::BadLocal };
        }
        if op == Opcode::IINC {
            if self.frame.lvt.load(idx).as_int().is_none() {
                return Step::Fatal { error: FatalError::BadOperands };
            }
            let incr = self.frame.byte(2);
            self.frame.lvt.iinc(idx, incr);
        } else if loads {
            let v = self.frame.lvt.load(idx);
            self.frame.stack.push(v);
        } else {
            if self.frame.stack.len() == 0 {
                return Step::Fatal { error: FatalError::BadOperands };
            }
            let v = self.frame.stack.pop();
            self.frame.lvt.store(idx, v);
        }
        self.frame.pc = self.frame.pc + width;
        Step::Next
    }

    /// A conditional or unconditional branch.
    fn branch_op(&mut self, op: u8) -> (s: Step)
        requires
            old(self).wf(),
            old(self).stands_at(op),
            branch_operands(op) is Some,
        ensures
            final(self).wf(),
            agrees(branch_step(old(self)@), old(self)@, s, final(self)@),
    {
        let width: usize = if op == Opcode::GOTO_W {
            5
        } else {
            3
        };
        if self.frame.code.len() - self.frame.pc < width {
            return Step::Fatal { error: FatalError::CodeOverrun };
        }
        let (tag, count): (char, usize) = if Opcode::IFEQ <= op && op <= Opcode::IFLE {
            ('I', 1)
        } else if Opcode::IF_ICMPEQ <= op && op <= Opcode::IF_ICMPLE {
            ('I', 2)
        } else if op == Opcode::IF_ACMPEQ || op == Opcode::IF_ACMPNE {
            ('A', 2)
        } else if op == Opcode::IFNULL || op == Opcode::IFNONNULL {
            ('A', 1)
        } else {
            ('A', 0)
        };
        if count > 0 && !self.frame.stack.has_operands(tag, count) {
            return Step::Fatal { error: FatalError::BadOperands };
        }
        let taken = if count == 0 {
            true
        } else {
            let b = self.frame.stack.peek(0);
            if count == 1 {
                holds_for_one(op, b)
            } else {
                holds_for_two(op, self.frame.stack.peek(1), b)
            }
        };
        if taken {
            let offset: i64 = if op == Opcode::GOTO_W {
                self.frame.word(self.frame.pc + 1) as i64
            } else {
                self.frame.i16_operand() as i64
            };
            let to = match self.frame.landing(offset) {
                Some(to) => to,
                None => {
                    return Step::Fatal { error: FatalError::BadBranch };
                },
            };
            drop_values(&mut self.frame.stack, count);
            self.frame.pc = to;
        } else {
            drop_values(&mut self.frame.stack, count);
            self.frame.pc = self.frame.pc + width;
        }
        Step::Next
    }

    /// A push of a number in the code or of a constant from the pool.
    fn constant_op(&mut self, op: u8) -> (s: Step)
        requires
            old(self).wf(),
            old(self).stands_at(op),
            is_constant_op(op),
        ensures
            final(self).wf(),
            agrees(constant_step(old(self)@), old(self)@, s, final(self)@),
    {
        let width: usize = if op == Opcode::BIPUSH || op == Opcode::LDC {
            2
        } else {
            3
        };
        if self.frame.code.len() - self.frame.pc < width {
            return Step::Fatal { error: FatalError::CodeOverrun };
        }
        if op == Opcode::BIPUSH {
            let v = byte_as_signed(self.frame.byte(1));
            self.frame.stack.iconst(v);
            self.frame.pc = self.frame.pc + width;
            return Step::Next;
        }
        if op == Opcode::SIPUSH {
            let v = self.frame.i16_operand();
            self.frame.stack.iconst(v);
            self.frame.pc = self.frame.pc + width;
            return Step::Next;
        }
        let idx: u16 = if op == Opcode::LDC {
            self.frame.byte(1) as u16
        } else {
            self.frame.u16_operand()
        };
        let wide = op == Opcode::LDC2_W;
        let owner = self.frame.klass_id;
        if owner < 1 || owner > self.repo.len() {
            return Step::Fatal { error: FatalError::BadConstant };
        }
        let k = self.repo.lookup_klass_by_id(owner);
        let value = match k.cp_entry(idx) {
            Some(CpEntry::IntConst { val }) => {
                if wide {
                    return Step::Fatal { error: FatalError::BadConstant };
                }
                JvmValue::Int { val: *val }
            },
            Some(CpEntry::FloatConst { val }) => {
                if wide {
                    return Step::Fatal { error: FatalError::BadConstant };
                }
                JvmValue::Float { val: *val }
            },
            Some(CpEntry::LongConst { val }) => {
                if !wide {
                    return Step::Fatal { error: FatalError::BadConstant };
                }
                JvmValue::Long { val: *val }
            },
            Some(CpEntry::DoubleConst { val }) => {
                if !wide {
                    return Step::Fatal { error: FatalError::BadConstant };
                }
                JvmValue::Double { val: *val }
            },
            Some(CpEntry::StringConst { idx: text_idx }) => {
                if wide {
                    return Step::Fatal { error: FatalError::BadConstant };
                }
                let text = match k.cp_text(*text_idx) {
                    Some(text) => text,
                    None => {
                        return Step::Fatal { error: FatalError::BadConstant };
                    },
                };
                if !self.heap.has_room() {
                    return Step::Fatal { error: FatalError::OutOfMemory };
                }
                let r = self.heap.allocate_filled('C', units_of(text.as_str()));
                JvmValue::ObjRef { val: r }
            },
            _ => {
                return Step::Fatal { error: FatalError::BadConstant };
            },
        };
        self.frame.stack.push(value);
        self.frame.pc = self.frame.pc + width;
        Step::Next
    }

    /// An operation of floating-point arithmetic, which the host computes.
    fn compute_op(&self, op: u8) -> (s: Step)
        requires
            self.wf(),
            self.stands_at(op),
            host_signature(op) is Some,
        ensures
            agrees(compute_step(self@), self@, s, self@),
    {
        if self.frame.stack.has_operands(signature_of(op), 2) {
            Step::Host { request: HostRequest::Compute { op } }
        } else {
            Step::Fatal { error: FatalError::BadOperands }
        }
    }

    /// A return from the running activation.
    fn return_op(&mut self, op: u8) -> (s: Step)
        requires
            old(self).wf(),
            old(self).stands_at(op),
            return_tag(op) is Some,
        ensures
            final(self).wf(),
            agrees(return_step(old(self)@), old(self)@, s, final(self)@),
    {
        let value = if op == Opcode::RETURN {
            None
        } else {
            let tag = if op == Opcode::IRETURN {
                'I'
            } else if op == Opcode::LRETURN {
                'J'
            } else if op == Opcode::FRETURN {
                'F'
            } else if op == Opcode::DRETURN {
                'D'
            } else {
                'A'
            };
            if !self.frame.stack.has_operands(tag, 1) {
                return Step::Fatal { error: FatalError::BadOperands };
            }
            let v = self.frame.stack.peek(0);
            match v.as_int() {
                Some(val) => Some(JvmValue::Int { val }),
                None => Some(v),
            }
        };
        match self.callers.pop() {
            None => Step::Returned { value },
            Some(caller) => {
                self.frame = caller;
                match value {
                    Some(v) => {
                        self.frame.stack.push(v);
                    },
                    None => {},
                }
                Step::Next
            },
        }
    }

    /// Resolves the invocation that the machine stands at.
    fn plan_invoke(&self, op: u8) -> (r: Result<(MethodSite, usize, usize), FatalError>)
        requires
            self.wf(),
            self.stands_at(op),
            is_invoke(op),
        ensures
            match invoke_plan(self@) {
                Ok(plan) => r matches Ok((site, taken, width)) && site == plan.site && taken
                    == plan.taken && width == plan.width && known(
                    self@.klasses,
                    plan.site.klass_id,
                ) && plan.site.at
                    < self@.klasses[plan.site.klass_id - 1].methods.len() && 0 <= plan.taken
                    <= self@.frame.stack.len() && plan.width >= 3 && self@.frame.pc + plan.width
                    <= self@.frame.code.len(),
                Err(e) => r == Err::<(MethodSite, usize, usize), FatalError>(e),
            },
    {
        let width: usize = if op == Opcode::INVOKEINTERFACE {
            5
        } else {
            3
        };
        if self.frame.code.len() - self.frame.pc < width {
            return Err(FatalError::CodeOverrun);
        }
        let idx = self.frame.u16_operand();
        let owner = self.frame.klass_id;
        let name_desc = match self.repo.find_method_ref(owner, idx) {
            Some(s) => s,
            None => {
                return Err(FatalError::BadConstant);
            },
        };
        let n = match parameter_count(name_desc.as_str()) {
            Some(n) => n,
            None => {
                return Err(FatalError::BadDescriptor);
            },
        };
        let taken: usize = if op == Opcode::INVOKESTATIC {
            n
        } else {
            n + 1
        };
        if self.frame.stack.len() < taken {
            return Err(FatalError::BadOperands);
        }
        if op == Opcode::INVOKESTATIC {
            return match self.repo.find_exact(owner, idx) {
                Some(site) => Ok((site, taken, width)),
                None => Err(FatalError::UnknownMethod),
            };
        }
        let r = match self.frame.stack.peek(taken - 1) {
            JvmValue::ObjRef { val } => val,
            _ => {
                return Err(FatalError::BadOperands);
            },
        };
        if r == 0 {
            return Err(FatalError::NullReference);
        }
        if op == Opcode::INVOKESPECIAL {
            return match self.repo.find_exact(owner, idx) {
                Some(site) => Ok((site, taken, width)),
                None => Err(FatalError::UnknownMethod),
            };
        }
        if !self.heap.is_live(r) {
            return Err(FatalError::BadReference);
        }
        let start = match self.heap.deref(r).klass_id() {
            Some(id) => id,
            None => {
                return Err(FatalError::BadReference);
            },
        };
        match self.repo.find_virtual(start, name_desc.as_str()) {
            Some(site) => Ok((site, taken, width)),
            None => Err(FatalError::UnknownMethod),
        }
    }

    /// The invocation of a method.
    fn invoke_op(&mut self, op: u8) -> (s: Step)
        requires
            old(self).wf(),
            old(self).stands_at(op),
            is_invoke(op),
        ensures
            final(self).wf(),
            agrees(invoke_step(old(self)@), old(self)@, s, final(self)@),
    {
        let (site, taken, width) = match self.plan_invoke(op) {
            Ok(plan) => plan,
            Err(error) => {
                return Step::Fatal { error };
            },
        };
        let callee = self.repo.lookup_klass_by_id(site.klass_id).method_at(site.at);
        if callee.is_native() {
            return Step::Host { request: HostRequest::Native { site } };
        }
        let size = callee.get_max_locals();
        if taken > size as usize {
            return Step::Fatal { error: FatalError::BadLocal };
        }
        let code = callee.get_code();
        let lvt = take_arguments(&mut self.frame.stack, taken, size);
        assert(self.frame.pc + width <= self.frame.code.len());
        self.frame.pc = self.frame.pc + width;
        let mut running = Frame::of(site.klass_id, code, lvt);
        std::mem::swap(&mut self.frame, &mut running);
        self.callers.push(running);
        Step::Next
    }

    /// The instance that `v` refers to.
    fn instance(&self, v: JvmValue) -> (r: Result<u64, FatalError>)
        ensures
            match instance_of(self@.objects, v) {
                Ok(obj) => r == Ok::<u64, FatalError>(v->ObjRef_val) && live(
                    self@.objects,
                    v->ObjRef_val,
                ) && obj == target(self@.objects, v->ObjRef_val) && obj is Instance,
                Err(e) => r == Err::<u64, FatalError>(e),
            },
    {
        let r = match v {
            JvmValue::ObjRef { val } => val,
            _ => {
                return Err(FatalError::BadOperands);
            },
        };
        if r == 0 {
            return Err(FatalError::NullReference);
        }
        if !self.heap.is_live(r) || self.heap.deref(r).is_array() {
            return Err(FatalError::BadReference);
        }
        Ok(r)
    }

    /// The array that `v` refers to.
    fn array(&self, v: JvmValue) -> (r: Result<u64, FatalError>)
        ensures
            match array_of(self@.objects, v) {
                Ok(obj) => r == Ok::<u64, FatalError>(v->ObjRef_val) && live(
                    self@.objects,
                    v->ObjRef_val,
                ) && obj == target(self@.objects, v->ObjRef_val) && obj is Array,
                Err(e) => r == Err::<u64, FatalError>(e),
            },
    {
        let r = match v {
            JvmValue::ObjRef { val } => val,
            _ => {
                return Err(FatalError::BadOperands);
            },
        };
        if r == 0 {
            return Err(FatalError::NullReference);
        }
        if !self.heap.is_live(r) || !self.heap.deref(r).is_array() {
            return Err(FatalError::BadReference);
        }
        Ok(r)
    }

    /// `new`.
    fn new_op(&mut self) -> (s: Step)
        requires
            old(self).wf(),
            old(self)@.frame.pc + 3 <= old(self)@.frame.code.len(),
        ensures
            final(self).wf(),
            agrees(new_step(old(self)@), old(self)@, s, final(self)@),
    {
        assert(self.frame.pc + 3 <= self.frame.code.len());
        let idx = self.frame.u16_operand();
        let id = match self.repo.find_klass_ref(self.frame.klass_id, idx) {
            Some(id) => id,
            None => {
                return Step::Fatal { error: FatalError::UnknownKlass };
            },
        };
        if !self.heap.has_room() {
            return Step::Fatal { error: FatalError::OutOfMemory };
        }
        let r = self.heap.allocate_obj(self.repo.lookup_klass_by_id(id));
        self.frame.stack.push(JvmValue::ObjRef { val: r });
        self.frame.pc = self.frame.pc + 3;
        Step::Next
    }

    /// `getfield` and `putfield`.
    fn field_op(&mut self, op: u8) -> (s: Step)
        requires
            old(self).wf(),
            old(self).stands_at(op),
            op == Opcode::GETFIELD || op == Opcode::PUTFIELD,
            old(self)@.frame.pc + 3 <= old(self)@.frame.code.len(),
        ensures
            final(self).wf(),
            agrees(field_step(old(self)@), old(self)@, s, final(self)@),
    {
        assert(self.frame.pc + 3 <= self.frame.code.len());
        let idx = self.frame.u16_operand();
        let site = match self.repo.find_field_ref(self.frame.klass_id, idx) {
            Some(site) => site,
            None => {
                return Step::Fatal { error: FatalError::UnknownField };
            },
        };
        if site.is_static {
            return Step::Fatal { error: FatalError::UnknownField };
        }
        let offset = self.repo.field_at(site).get_offset() as usize;
        let depth: usize = if op == Opcode::GETFIELD {
            1
        } else {
            2
        };
        if self.frame.stack.len() < depth {
            return Step::Fatal { error: FatalError::BadOperands };
        }
        let r = match self.instance(self.frame.stack.peek(depth - 1)) {
            Ok(r) => r,
            Err(error) => {
                return Step::Fatal { error };
            },
        };
        if offset >= self.heap.deref(r).length() {
            return Step::Fatal { error: FatalError::BadIndex };
        }
        if op == Opcode::GETFIELD {
            let v = self.heap.deref(r).get_slot(offset);
            let _ = self.frame.stack.pop();
            self.frame.stack.push(v);
        } else {
            let v = self.frame.stack.pop();
            let _ = self.frame.stack.pop();
            self.heap.put_slot(r, offset, v);
        }
        self.frame.pc = self.frame.pc + 3;
        Step::Next
    }

    /// `getstatic` and `putstatic`.
    fn static_op(&mut self, op: u8) -> (s: Step)
        requires
            old(self).wf(),
            old(self).stands_at(op),
            op == Opcode::GETSTATIC || op == Opcode::PUTSTATIC,
            old(self)@.frame.pc + 3 <= old(self)@.frame.code.len(),
        ensures
            final(self).wf(),
            agrees(static_step(old(self)@), old(self)@, s, final(self)@),
    {
        assert(self.frame.pc + 3 <= self.frame.code.len());
        let idx = self.frame.u16_operand();
        let site = match self.repo.find_field_ref(self.frame.klass_id, idx) {
            Some(site) => site,
            None => {
                return Step::Fatal { error: FatalError::UnknownField };
            },
        };
        if !site.is_static {
            return Step::Fatal { error: FatalError::UnknownField };
        }
        if op == Opcode::GETSTATIC {
            let v = self.repo.lookup_klass_by_id(site.klass_id).get_static(site.at);
            self.frame.stack.push(v);
        } else {
            if self.frame.stack.len() == 0 {
                return Step::Fatal { error: FatalError::BadOperands };
            }
            let v = self.frame.stack.pop();
            self.repo.put_static(site.klass_id, site.at, v);
        }
        self.frame.pc = self.frame.pc + 3;
        Step::Next
    }

    /// `instanceof` and `checkcast`.
    fn cast_op(&mut self, op: u8) -> (s: Step)
        requires
            old(self).wf(),
            old(self).stands_at(op),
            op == Opcode::INSTANCEOF || op == Opcode::CHECKCAST,
            old(self)@.frame.pc + 3 <= old(self)@.frame.code.len(),
        ensures
            final(self).wf(),
            agrees(cast_step(old(self)@), old(self)@, s, final(self)@),
    {
        assert(self.frame.pc + 3 <= self.frame.code.len());
        let idx = self.frame.u16_operand();
        let id = match self.repo.find_klass_ref(self.frame.klass_id, idx) {
            Some(id) => id,
            None => {
                return Step::Fatal { error: FatalError::UnknownKlass };
            },
        };
        if !self.frame.stack.has_operands('A', 1) {
            return Step::Fatal { error: FatalError::BadOperands };
        }
        let r = match self.frame.stack.peek(0) {
            JvmValue::ObjRef { val } => val,
            _ => 0,
        };
        if r != 0 && !self.heap.is_live(r) {
            return Step::Fatal { error: FatalError::BadReference };
        }
        let fits = r != 0 && match self.heap.deref(r).klass_id() {
            Some(start) => self.repo.is_subclass(start, id),
            None => false,
        };
        if op == Opcode::INSTANCEOF {
            let _ = self.frame.stack.pop();
            self.frame.stack.iconst(
                if fits {
                    1
                } else {
                    0
                },
            );
        } else if !(r == 0 || fits) {
            return Step::Fatal { error: FatalError::BadCast };
        }
        self.frame.pc = self.frame.pc + 3;
        Step::Next
    }

    /// An operation on objects and classes.
    fn object_op(&mut self, op: u8) -> (s: Step)
        requires
            old(self).wf(),
            old(self).stands_at(op),
            is_object_op(op),
        ensures
            final(self).wf(),
            agrees(object_step(old(self)@), old(self)@, s, final(self)@),
    {
        if self.frame.code.len() - self.frame.pc < 3 {
            return Step::Fatal { error: FatalError::CodeOverrun };
        }
        if op == Opcode::NEW {
            self.new_op()
        } else if op == Opcode::GETFIELD || op == Opcode::PUTFIELD {
            self.field_op(op)
        } else if op == Opcode::GETSTATIC || op == Opcode::PUTSTATIC {
            self.static_op(op)
        } else {
            self.cast_op(op)
        }
    }

    /// `newarray` and `anewarray`.
    fn new_array_op(&mut self, op: u8) -> (s: Step)
        requires
            old(self).wf(),
            old(self).stands_at(op),
            op == Opcode::NEWARRAY || op == Opcode::ANEWARRAY,
        ensures
            final(self).wf(),
            agrees(new_array_step(old(self)@), old(self)@, s, final(self)@),
    {
        let width: usize = if op == Opcode::NEWARRAY {
            2
        } else {
            3
        };
        if self.frame.code.len() - self.frame.pc < width {
            return Step::Fatal { error: FatalError::CodeOverrun };
        }
        let elem = if op == Opcode::NEWARRAY {
            match element_type(self.frame.byte(1)) {
                Some(elem) => elem,
                None => {
                    return Step::Fatal { error: FatalError::BadArrayType };
                },
            }
        } else {
            'A'
        };
        if !self.frame.stack.has_operands('I', 1) {
            return Step::Fatal { error: FatalError::BadOperands };
        }
        let count = match self.frame.stack.peek(0).as_int() {
            Some(val) => val,
            None => 0,
        };
        if count < 0 {
            return Step::Fatal { error: FatalError::NegativeArraySize };
        }
        if !self.heap.has_room() {
            return Step::Fatal { error: FatalError::OutOfMemory };
        }
        let r = self.heap.allocate_array(elem, count);
        let _ = self.frame.stack.pop();
        self.frame.stack.push(JvmValue::ObjRef { val: r });
        self.frame.pc = self.frame.pc + width;
        Step::Next
    }

    /// `arraylength`.
    fn array_length_op(&mut self) -> (s: Step)
        requires
            old(self).wf(),
            old(self).stands_at(Opcode::ARRAYLENGTH),
        ensures
            final(self).wf(),
            agrees(array_length_step(old(self)@), old(self)@, s, final(self)@),
    {
        if self.frame.stack.len() == 0 {
            return Step::Fatal { error: FatalError::BadOperands };
        }
        let r = match self.array(self.frame.stack.peek(0)) {
            Ok(r) => r,
            Err(error) => {
                return Step::Fatal { error };
            },
        };
        let length = self.heap.deref(r).length();
        if length > 0x7fff_ffff {
            return Step::Fatal { error: FatalError::BadIndex };
        }
        let _ = self.frame.stack.pop();
        self.frame.stack.iconst(length as i32);
        assert(self.frame.pc < self.frame.code.len());
        self.frame.pc = self.frame.pc + 1;
        Step::Next
    }

    /// The load of an array element.
    fn array_load_op(&mut self, op: u8) -> (s: Step)
        requires
            old(self).wf(),
            old(self).stands_at(op),
            Opcode::IALOAD <= op <= Opcode::SALOAD,
        ensures
            final(self).wf(),
            agrees(array_load_step(old(self)@), old(self)@, s, final(self)@),
    {
        if self.frame.stack.len() < 2 {
            return Step::Fatal { error: FatalError::BadOperands };
        }
        let at = match self.frame.stack.peek(0).as_int() {
            Some(val) => val,
            None => {
                return Step::Fatal { error: FatalError::BadOperands };
            },
        };
        let r = match self.array(self.frame.stack.peek(1)) {
            Ok(r) => r,
            Err(error) => {
                return Step::Fatal { error };
            },
        };
        let array = self.heap.deref(r);
        let elem = match array.elem() {
            Some(elem) => elem,
            None => 'A',
        };
        if !fits_kind(op - Opcode::IALOAD, elem) {
            return Step::Fatal { error: FatalError::BadOperands };
        }
        if at < 0 || at as usize >= array.length() {
            return Step::Fatal { error: FatalError::BadIndex };
        }
        let v = widen(array.get_slot(at as usize));
        let _ = self.frame.stack.pop();
        let _ = self.frame.stack.pop();
        self.frame.stack.push(v);
        assert(self.frame.pc < self.frame.code.len());
        self.frame.pc = self.frame.pc + 1;
        Step::Next
    }

    /// The store of an array element.
    fn array_store_op(&mut self, op: u8) -> (s: Step)
        requires
            old(self).wf(),
            old(self).stands_at(op),
            Opcode::IASTORE <= op <= Opcode::SASTORE,
        ensures
            final(self).wf(),
            agrees(array_store_step(old(self)@), old(self)@, s, final(self)@),
    {
        if self.frame.stack.len() < 3 {
            return Step::Fatal { error: FatalError::BadOperands };
        }
        let at = match self.frame.stack.peek(1).as_int() {
            Some(val) => val,
            None => {
                return Step::Fatal { error: FatalError::BadOperands };
            },
        };
        let r = match self.array(self.frame.stack.peek(2)) {
            Ok(r) => r,
            Err(error) => {
                return Step::Fatal { error };
            },
        };
        let array = self.heap.deref(r);
        let elem = match array.elem() {
            Some(elem) => elem,
            None => 'A',
        };
        if !fits_kind(op - Opcode::IASTORE, elem) {
            return Step::Fatal { error: FatalError::BadOperands };
        }
        let v = match narrow(elem, self.frame.stack.peek(0)) {
            Some(v) => v,
            None => {
                return Step::Fatal { error: FatalError::BadOperands };
            },
        };
        if at < 0 || at as usize >= array.length() {
            return Step::Fatal { error: FatalError::BadIndex };
        }
        drop_values(&mut self.frame.stack, 3);
        self.heap.put_slot(r, at as usize, v);
        assert(self.frame.pc < self.frame.code.len());
        self.frame.pc = self.frame.pc + 1;
        Step::Next
    }

    /// An operation on arrays.
    fn array_op(&mut self, op: u8) -> (s: Step)
        requires
            old(self).wf(),
            old(self).stands_at(op),
            is_array_op(op),
        ensures
            final(self).wf(),
            agrees(array_step(old(self)@), old(self)@, s, final(self)@),
    {
        if op == Opcode::NEWARRAY || op == Opcode::ANEWARRAY {
            self.new_array_op(op)
        } else if op == Opcode::ARRAYLENGTH {
            self.array_length_op()
        } else if Opcode::IALOAD <= op && op <= Opcode::SALOAD {
            self.array_load_op(op)
        } else {
            self.array_store_op(op)
        }
    }

    /// The offset that the switch at which the machine stands picks for `key`.
    fn pick_offset(&self, op: u8, key: i32) -> (r: Option<i32>)
        requires
            self.stands_at(op),
            is_switch(op),
        ensures
            r matches Some(offset) ==> switch_offset(
                op,
                self@.frame.code,
                self@.frame.pc as int,
                key as int,
            ) == Some(offset as int),
            r is None ==> switch_offset(op, self@.frame.code, self@.frame.pc as int, key as int)
                is None,
    {
        assert(self.frame.pc < self.frame.code.len());
        let base = match self.frame.table_start() {
            Some(base) => base,
            None => {
                return None;
            },
        };
        if op == Opcode::TABLESWITCH {
            self.frame.pick_by_place(base, key)
        } else {
            self.frame.pick_by_key(base, key)
        }
    }

    /// A switch.
    fn switch_op(&mut self, op: u8) -> (s: Step)
        requires
            old(self).wf(),
            old(self).stands_at(op),
            is_switch(op),
        ensures
            final(self).wf(),
            agrees(switch_step(old(self)@), old(self)@, s, final(self)@),
    {
        if !self.frame.stack.has_operands('I', 1) {
            return Step::Fatal { error: FatalError::BadOperands };
        }
        let key = match self.frame.stack.peek(0).as_int() {
            Some(val) => val,
            None => 0,
        };
        let offset = match self.pick_offset(op, key) {
            Some(offset) => offset as i64,
            None => {
                return Step::Fatal { error: FatalError::CodeOverrun };
            },
        };
        assert(self.frame.pc < self.frame.code.len());
        let to = match self.frame.landing(offset) {
            Some(to) => to,
            None => {
                return Step::Fatal { error: FatalError::BadBranch };
            },
        };
        let _ = self.frame.stack.pop();
        self.frame.pc = to;
        Step::Next
    }

    /// A throw, or the entering or leaving of a monitor.
    fn reference_op(&mut self, op: u8) -> (s: Step)
        requires
            old(self).wf(),
            old(self).stands_at(op),
            is_reference_op(op),
        ensures
            final(self).wf(),
            agrees(reference_step(old(self)@), old(self)@, s, final(self)@),
    {
        if !self.frame.stack.has_operands('A', 1) {
            return Step::Fatal { error: FatalError::BadOperands };
        }
        match self.frame.stack.peek(0) {
            JvmValue::ObjRef { val } => {
                if val == 0 {
                    return Step::Fatal { error: FatalError::NullReference };
                }
            },
            _ => {},
        }
        if op == Opcode::ATHROW {
            return Step::Fatal { error: FatalError::Uncaught };
        }
        let _ = self.frame.stack.pop();
        assert(self.frame.pc < self.frame.code.len());
        self.frame.pc = self.frame.pc + 1;
        Step::Next
    }

    /// A machine that is about to run `frame` against the classes and objects
    /// of `context`.
    pub fn of(context: VmContext, frame: Frame) -> (m: Machine)
        requires
            context.wf(),
        ensures
            m.wf(),
            m@ == (MachineModel {
                klasses: context@.klasses,
                objects: context@.objects,
                frame: frame@,
                callers: Seq::empty(),
            }),
    {
        let (repo, heap) = context.into_parts();
        let m = Machine { repo, heap, frame, callers: Vec::new() };
        m
    }

    /// Ends the machine and gives back its classes and objects.
    pub fn into_context(self) -> (context: VmContext)
        requires
            self.wf(),
        ensures
            context.wf(),
            context@.klasses == self@.klasses,
            context@.objects == self@.objects,
    {
        VmContext::with(self.repo, self.heap)
    }

    /// The classes.
    pub fn repo(&self) -> (repo: &SharedKlassRepo)
        requires
            self.wf(),
        ensures
            repo.wf(),
            repo@ == self@.klasses,
    {
        &self.repo
    }

    /// The objects.
    pub fn heap(&self) -> (heap: &SharedSimpleHeap)
        ensures
            heap@ == self@.objects,
    {
        &self.heap
    }

    /// The value `depth` places below the top of the running activation's
    /// stack, if the stack is that high.
    pub fn operand(&self, depth: usize) -> (v: Option<JvmValue>)
        ensures
            v == (if depth < self@.frame.stack.len() {
                Some(self@.frame.stack[self@.frame.stack.len() - 1 - depth])
            } else {
                None
            }),
    {
        if depth < self.frame.stack.len() {
            Some(self.frame.stack.peek(depth))
        } else {
            None
        }
    }

    /// The id of the class whose code is running, and the place in the code
    /// at which the machine stands.
    pub fn position(&self) -> (at: (usize, usize))
        ensures
            at == (self@.frame.klass_id, self@.frame.pc),
    {
        (self.frame.klass_id, self.frame.pc)
    }

    /// The operation code at which the machine stands, if it stands within
    /// the code.
    pub fn opcode(&self) -> (op: Option<u8>)
        ensures
            op == (if self@.frame.pc < self@.frame.code.len() {
                Some(self@.frame.code[self@.frame.pc as int])
            } else {
                None
            }),
    {
        if self.frame.pc < self.frame.code.len() {
            Some(self.frame.code[self.frame.pc])
        } else {
            None
        }
    }

    /// How many activations wait for the running one.
    pub fn depth(&self) -> (n: usize)
        ensures
            n == self@.callers.len(),
    {
        self.callers.len()
    }

    /// Performs the instruction that the machine stands at.
    pub fn step(&mut self) -> (s: Step)
        requires
            old(self).wf(),
        ensures
            final(self).wf(),
            agrees(next(old(self)@), old(self)@, s, final(self)@),
    {
        if self.frame.pc >= self.frame.code.len() {
            return Step::Fatal { error: FatalError::CodeOverrun };
        }
        let op = self.frame.code[self.frame.pc];
        match self.stack_op(op) {
            Some(s) => {
                return s;
            },
            None => {},
        }
        if op == Opcode::IINC || Opcode::ILOAD <= op && op <= Opcode::ALOAD_3 || Opcode::ISTORE
            <= op && op <= Opcode::ASTORE_3 {
            self.local_op(op)
        } else if Opcode::IFEQ <= op && op <= Opcode::GOTO || op == Opcode::IFNULL || op
            == Opcode::IFNONNULL || op == Opcode::GOTO_W {
            self.branch_op(op)
        } else if Opcode::BIPUSH <= op && op <= Opcode::LDC2_W {
            self.constant_op(op)
        } else if is_host_op(op) {
            self.compute_op(op)
        } else if Opcode::IRETURN <= op && op <= Opcode::RETURN {
            self.return_op(op)
        } else if Opcode::INVOKEVIRTUAL <= op && op <= Opcode::INVOKEINTERFACE {
            self.invoke_op(op)
        } else if Opcode::GETSTATIC <= op && op <= Opcode::PUTFIELD || op == Opcode::NEW || op
            == Opcode::CHECKCAST || op == Opcode::INSTANCEOF {
            self.object_op(op)
        } else if Opcode::IALOAD <= op && op <= Opcode::SALOAD || Opcode::IASTORE <= op && op
            <= Opcode::SASTORE || op == Opcode::NEWARRAY || op == Opcode::ANEWARRAY || op
            == Opcode::ARRAYLENGTH {
            self.array_op(op)
        } else if op == Opcode::TABLESWITCH || op == Opcode::LOOKUPSWITCH {
            self.switch_op(op)
        } else if op == Opcode::ATHROW || op == Opcode::MONITORENTER || op == Opcode::MONITOREXIT {
            self.reference_op(op)
        } else {
            Step::Fatal { error: FatalError::BadOpcode }
        }
    }

    /// Performs instructions until one of them does not simply go on, but no
    /// more than `fuel` of them. Nothing is returned where the fuel ran out.
    pub fn run(&mut self, fuel: u64) -> (s: Option<Step>)
        requires
            old(self).wf(),
        ensures
            final(self).wf(),
            final(self)@ == run_of(old(self)@, fuel as nat).0,
            match run_of(old(self)@, fuel as nat).1 {
                None => s is None,
                Some(t) => s matches Some(step) && agrees(t, final(self)@, step, final(self)@),
            },
    {
        let mut left = fuel;
        while left > 0
            invariant
                self.wf(),
                run_of(old(self)@, fuel as nat) == run_of(self@, left as nat),
            decreases left,
        {
            match self.step() {
                Step::Next => {
                    left = left - 1;
                },
                other => {
                    return Some(other);
                },
            }
        }
        None
    }

    /// Takes the result of the floating-point arithmetic that the machine
    /// stands at from the host, and moves past the operation.
    pub fn complete_compute(&mut self, result: JvmValue) -> (s: Step)
        requires
            old(self).wf(),
        ensures
            final(self).wf(),
            agrees(computed(old(self)@, result), old(self)@, s, final(self)@),
    {
        if self.frame.pc >= self.frame.code.len() {
            return Step::Fatal { error: FatalError::BadOpcode };
        }
        let op = self.frame.code[self.frame.pc];
        if !is_host_op(op) {
            proof {
                lemma_asks(self@);
            }
            return Step::Fatal { error: FatalError::BadOpcode };
        }
        let tag = signature_of(op);
        if !self.frame.stack.has_operands(tag, 2) {
            return Step::Fatal { error: FatalError::BadOpcode };
        }
        if result.name() != tag {
            return Step::Fatal { error: FatalError::BadOperands };
        }
        drop_values(&mut self.frame.stack, 2);
        self.frame.stack.push(result);
        self.frame.pc = self.frame.pc + 1;
        Step::Next
    }

    /// Takes what the native method that the machine stands at returned from
    /// the host, and moves past the invocation.
    pub fn complete_native(&mut self, result: Option<JvmValue>) -> (s: Step)
        requires
            old(self).wf(),
        ensures
            final(self).wf(),
            agrees(answered(old(self)@, result), old(self)@, s, final(self)@),
    {
        if self.frame.pc >= self.frame.code.len() {
            return Step::Fatal { error: FatalError::BadOpcode };
        }
        let op = self.frame.code[self.frame.pc];
        if !(Opcode::INVOKEVIRTUAL <= op && op <= Opcode::INVOKEINTERFACE) {
            proof {
                lemma_asks(self@);
            }
            return Step::Fatal { error: FatalError::BadOpcode };
        }
        let (site, taken, width) = match self.plan_invoke(op) {
            Ok(plan) => plan,
            Err(_) => {
                return Step::Fatal { error: FatalError::BadOpcode };
            },
        };
        if !self.repo.lookup_klass_by_id(site.klass_id).method_at(site.at).is_native() {
            return Step::Fatal { error: FatalError::BadOpcode };
        }
        drop_values(&mut self.frame.stack, taken);
        match result {
            Some(v) => {
                self.frame.stack.push(v);
            },
            None => {},
        }
        self.frame.pc = self.frame.pc + width;
        Step::Next
    }
}

/// The machine asks its host to compute only at a floating-point operation,
/// and to run a native method only at an invocation.
pub proof fn lemma_asks(m: MachineModel)
    ensures
        next(m) matches Transition::Asks { request } ==> m.frame.pc < m.frame.code.len() && (
        match request {
            HostRequest::Compute { op } => op == m.frame.code[m.frame.pc as int] && host_signature(
                op,
            ) is Some,
            HostRequest::Native { site } => is_invoke(m.frame.code[m.frame.pc as int])
                && invoke_plan(m) is Ok && site == invoke_plan(m)->Ok_0.site,
        }),
{
}

/// The state in which a run of `meth` starts: the machine stands at the
/// start of the method's code, with an empty stack, the local variables
/// given, and no activation waiting. The code refers to the pool of the class
/// that the method names as its own, if the repository has it.
pub open spec fn entry_state(
    klasses: Seq<KlassModel>,
    objects: Seq<ObjModel>,
    meth: MethodModel,
    lvt: Seq<JvmValue>,
) -> MachineModel {
    MachineModel {
        klasses,
        objects,
        frame: FrameModel {
            klass_id: if name_index(klasses).contains_key(meth.klass_name) {
                name_index(klasses)[meth.klass_name]
            } else {
                0
            },
            code: meth.code,
            pc: 0,
            stack: Seq::empty(),
            lvt,
        },
        callers: Seq::empty(),
    }
}

/// Runs `meth` with the local variables `lvt` against the classes and objects
/// of `context`, for no more than `fuel` instructions. Reports how the run
/// ended, or nothing where the fuel ran out; the classes and objects are left
/// as the run left them.
pub fn exec_method(context: &mut VmContext, meth: &OtMethod, lvt: InterpLocalVars, fuel: u64) -> (s:
    Option<Step>)
    requires
        old(context).wf(),
    ensures
        final(context).wf(),
        ({
            let start = entry_state(old(context)@.klasses, old(context)@.objects, meth@, lvt@);
            let (end, last) = run_of(start, fuel as nat);
            &&& final(context)@.klasses == end.klasses
            &&& final(context)@.objects == end.objects
            &&& match last {
                None => s is None,
                Some(t) => s matches Some(step) && agrees(t, end, step, end),
            }
        }),
{
    let mut own = VmContext::of();
    std::mem::swap(context, &mut own);
    let klass_name = meth.get_klass_name();
    let klass_id = match own.get_repo().find_klass(klass_name.as_str()) {
        Some(id) => id,
        None => 0,
    };
    let mut machine = Machine::of(own, Frame::of(klass_id, meth.get_code(), lvt));
    let s = machine.run(fuel);
    *context = machine.into_context();
    s
}

/// Whether `op` is an operation of floating-point arithmetic.
fn is_host_op(op: u8) -> (b: bool)
    ensures
        b == host_signature(op) is Some,
{
    op == Opcode::FADD || op == Opcode::FSUB || op == Opcode::FMUL || op == Opcode::FDIV || op
        == Opcode::FREM || op == Opcode::DADD || op == Opcode::DSUB || op == Opcode::DMUL || op
        == Opcode::DDIV || op == Opcode::DREM
}

/// The element type that a type code of `newarray` stands for.
fn element_type(code: u8) -> (r: Option<char>)
    ensures
        r == array_type(code),
{
    if code == 4 {
        Some('Z')
    } else if code == 5 {
        Some('C')
    } else if code == 6 {
        Some('F')
    } else if code == 7 {
        Some('D')
    } else if code == 8 {
        Some('B')
    } else if code == 9 {
        Some('S')
    } else if code == 10 {
        Some('I')
    } else if code == 11 {
        Some('J')
    } else {
        None
    }
}

fn fits_kind(kind: u8, elem: char) -> (b: bool)
    requires
        kind <= 7,
    ensures
        b == kind_fits(kind as int, elem),
{
    if kind == 0 {
        elem == 'I'
    } else if kind == 1 {
        elem == 'J'
    } else if kind == 2 {
        elem == 'F'
    } else if kind == 3 {
        elem == 'D'
    } else if kind == 4 {
        elem == 'A'
    } else if kind == 5 {
        elem == 'B' || elem == 'Z'
    } else if kind == 6 {
        elem == 'C'
    } else {
        elem == 'S'
    }
}

fn widen(v: JvmValue) -> (r: JvmValue)
    ensures
        r == widened(v),
{
    match v {
        JvmValue::Boolean { val } => JvmValue::Int {
            val: if val {
                1
            } else {
                0
            },
        },
        JvmValue::Byte { val } => JvmValue::Int { val: val as i32 },
        JvmValue::Short { val } => JvmValue::Int { val: val as i32 },
        JvmValue::Char { val } => JvmValue::Int { val: val as i32 },
        _ => v,
    }
}

fn narrow(elem: char, v: JvmValue) -> (r: Option<JvmValue>)
    ensures
        r == narrowed(elem, v),
{
    if elem == 'Z' || elem == 'B' || elem == 'C' || elem == 'S' || elem == 'I' {
        match v.as_int() {
            Some(val) => if elem == 'Z' {
                Some(JvmValue::Boolean { val: val & 1 == 1 })
            } else if elem == 'B' {
                Some(JvmValue::Byte { val: byte_of_int(val) })
            } else if elem == 'C' {
                Some(JvmValue::Char { val: char_of_int(val) })
            } else if elem == 'S' {
                Some(JvmValue::Short { val: short_of_int(val) })
            } else {
                Some(JvmValue::Int { val })
            },
            None => None,
        }
    } else if v.name() == elem {
        Some(v)
    } else {
        None
    }
}

/// Moves the top `taken` values of the stack into the first variables of a
/// new table of `size` variables, the deepest first.
fn take_arguments(stack: &mut InterpEvalStack, taken: usize, size: u8) -> (lvt: InterpLocalVars)
    requires
        taken <= old(stack)@.len(),
        taken <= size,
    ensures
        final(stack)@ == old(stack)@.take(old(stack)@.len() - taken),
        lvt@ == entry_locals(
            old(stack)@.subrange(old(stack)@.len() - taken, old(stack)@.len() as int),
            size as int,
        ),
{
    let mut lvt = InterpLocalVars::of(size);
    let ghost before = stack@;
    let ghost base = before.len() - taken;
    let mut i: usize = taken;
    while i > 0
        invariant
            i <= taken,
            taken <= size,
            taken <= before.len(),
            base == before.len() - taken,
            before == old(stack)@,
            stack@ == before.take(base + i),
            lvt@.len() == size,
            forall|j: int| i <= j < taken ==> lvt@[j] == before[base + j],
            forall|j: int|
                0 <= j < size && !(i <= j < taken) ==> lvt@[j] == (JvmValue::Int { val: 0 }),
        decreases i,
    {
        let v = stack.pop();
        i = i - 1;
        lvt.store(i as u8, v);
    }
    lvt
}

/// Takes the top `count` values off the stack.
fn drop_values(stack: &mut InterpEvalStack, count: usize)
    requires
        count <= old(stack)@.len(),
    ensures
        final(stack)@ == old(stack)@.take(old(stack)@.len() - count),
{
    let mut i: usize = 0;
    while i < count
        invariant
            i <= count,
            count <= old(stack)@.len(),
            stack@ == old(stack)@.take(old(stack)@.len() - i),
        decreases count - i,
    {
        let _ = stack.pop();
        i = i + 1;
    }
}

/// Whether a branch on one value is taken.
fn holds_for_one(op: u8, v: JvmValue) -> (taken: bool)
    requires
        branch_operands(op) == Some(('I', 1int)) && v.is_int_like() || branch_operands(op)
            == Some(('A', 1int)) && v is ObjRef,
    ensures
        taken == branch_taken(op, seq![v]),
{
    match v {
        JvmValue::ObjRef { val } => if op == Opcode::IFNULL {
            val == 0
        } else {
            val != 0
        },
        _ => match v.as_int() {
            Some(val) => relation(op - Opcode::IFEQ, val, 0),
            None => true,
        },
    }
}

/// Whether a branch on two values is taken.
fn holds_for_two(op: u8, a: JvmValue, b: JvmValue) -> (taken: bool)
    requires
        branch_operands(op) == Some(('I', 2int)) && a.is_int_like() && b.is_int_like()
            || branch_operands(op) == Some(('A', 2int)) && a is ObjRef && b is ObjRef,
    ensures
        taken == branch_taken(op, seq![a, b]),
{
    match (a, b) {
        (JvmValue::ObjRef { val: x }, JvmValue::ObjRef { val: y }) => if op == Opcode::IF_ACMPEQ {
            x == y
        } else {
            x != y
        },
        _ => match (a.as_int(), b.as_int()) {
            (Some(x), Some(y)) => relation(op - Opcode::IF_ICMPEQ, x, y),
            _ => true,
        },
    }
}

fn relation(rel: u8, a: i32, b: i32) -> (r: bool)
    requires
        rel <= 5,
    ensures
        r == relation_holds(rel as int, a as int, b as int),
{
    if rel == 0 {
        a == b
    } else if rel == 1 {
        a != b
    } else if rel == 2 {
        a < b
    } else if rel == 3 {
        a >= b
    } else if rel == 4 {
        a > b
    } else {
        a <= b
    }
}

/// The type of the operands and of the result of an operation of
/// floating-point arithmetic; it has two operands.
fn signature_of(op: u8) -> (tag: char)
    requires
        host_signature(op) is Some,
    ensures
        host_signature(op) == Some((tag, 2int, tag)),
{
    if op == Opcode::FADD || op == Opcode::FSUB || op == Opcode::FMUL || op == Opcode::FDIV || op
        == Opcode::FREM {
        'F'
    } else {
        'D'
    }
}

/// The slots of the array that stands for the string `text`.
fn units_of(text: &str) -> (slots: Vec<JvmValue>)
    ensures
        slots@ == string_slots(text@),
{
    let n = text.unicode_len();
    let mut slots: Vec<JvmValue> = Vec::new();
    let mut i: usize = 0;
    while i < n
        invariant
            i <= n,
            n == text@.len(),
            slots@ == string_slots(text@).take(i as int),
        decreases n - i,
    {
        let c = text.get_char(i);
        let code = c as u32;
        let unit: u16 = if code <= 0xffff {
            code as u16
        } else {
            0xfffd
        };
        slots.push(JvmValue::Char { val: unit });
        i = i + 1;
    }
    slots
}

} // verus!
