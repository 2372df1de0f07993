use vstd::prelude::*;
use crate::interp_stack::under;
use crate::klass_repo::field_target;
use crate::opcode::Opcode;
use crate::semantics::{
    answered, array_step, branch_operands, branch_step, computed, constant_step, host_signature,
    invoke_plan, invoke_step, is_array_op, is_constant_op, is_invoke, is_local_op, is_object_op,
    local_step, next, object_step, operand_u16, reference_step, return_step, return_tag, run_of,
    switch_step, FrameModel, MachineModel,
};
use crate::stack_ops::stack_effect;
use crate::value::JvmValue;

verus! {

/// A value is sound in a heap of `height` objects if it is no reference, or
/// the null reference, or a reference to one of the objects.
pub open spec fn sound(height: int, v: JvmValue) -> bool {
    v is ObjRef ==> v->ObjRef_val <= height
}

pub open spec fn all_sound(height: int, values: Seq<JvmValue>) -> bool {
    forall|i: int| 0 <= i < values.len() ==> sound(height, #[trigger] values[i])
}

pub open spec fn frame_sound(height: int, f: FrameModel) -> bool {
    all_sound(height, f.stack) && all_sound(height, f.lvt)
}

/// Every reference that the machine holds, on a stack, in a local variable,
/// in a slot of an object or in a static field, is null or leads to an object
/// of the heap.
pub open spec fn state_sound(m: MachineModel) -> bool {
    let height = m.objects.len() as int;
    &&& frame_sound(height, m.frame)
    &&& forall|i: int| 0 <= i < m.callers.len() ==> frame_sound(height, #[trigger] m.callers[i])
    &&& forall|i: int|
        0 <= i < m.objects.len() ==> all_sound(height, (#[trigger] m.objects[i]).slots())
    &&& forall|k: int, j: int|
        0 <= k < m.klasses.len() && 0 <= j < m.klasses[k].statics.len() ==> sound(
            height,
            (#[trigger] m.klasses[k].statics[j]).value,
        )
}

/// An operation on the stack alone makes no reference that was not there.
pub proof fn lemma_stack_effect_sound(height: int, op: u8, s: Seq<JvmValue>)
    requires
        0 <= height,
        all_sound(height, s),
        stack_effect(op, s) matches Some(Ok(_)),
    ensures
        all_sound(height, stack_effect(op, s)->0->Ok_0),
{
    let after = stack_effect(op, s)->0->Ok_0;
    assert forall|i: int| 0 <= i < after.len() implies sound(height, #[trigger] after[i]) by {
    }
}

/// What is sound in a heap stays sound when the heap grows.
proof fn lemma_raise(low: int, high: int, values: Seq<JvmValue>)
    requires
        low <= high,
        all_sound(low, values),
    ensures
        all_sound(high, values),
{
    assert forall|i: int| 0 <= i < values.len() implies sound(high, #[trigger] values[i]) by {
    }
}

/// A state is sound if it differs from a sound state only in the stack and
/// the local variables of the running activation, and those are sound.
proof fn lemma_same_heap(m: MachineModel, to: MachineModel)
    requires
        state_sound(m),
        to.klasses == m.klasses,
        to.objects == m.objects,
        to.callers == m.callers,
        frame_sound(m.objects.len() as int, to.frame),
    ensures
        state_sound(to),
{
}

/// A state is sound if it differs from a sound state in one more object on
/// the heap, whose slots are sound, and in the running activation, which is
/// sound.
proof fn lemma_grown_heap(m: MachineModel, to: MachineModel)
    requires
        state_sound(m),
        to.klasses == m.klasses,
        to.callers == m.callers,
        to.objects.len() == m.objects.len() + 1,
        to.objects.take(m.objects.len() as int) == m.objects,
        all_sound(to.objects.len() as int, to.objects.last().slots()),
        frame_sound(to.objects.len() as int, to.frame),
    ensures
        state_sound(to),
{
    let low = m.objects.len() as int;
    let high = to.objects.len() as int;
    assert forall|i: int| 0 <= i < to.callers.len() implies frame_sound(
        high,
        #[trigger] to.callers[i],
    ) by {
        lemma_raise(low, high, m.callers[i].stack);
        lemma_raise(low, high, m.callers[i].lvt);
    }
    assert forall|i: int| 0 <= i < to.objects.len() implies all_sound(
        high,
        (#[trigger] to.objects[i]).slots(),
    ) by {
        if i < low {
            lemma_raise(low, high, m.objects[i].slots());
        }
    }
    assert forall|k: int, j: int|
        0 <= k < to.klasses.len() && 0 <= j < to.klasses[k].statics.len() implies sound(
        high,
        (#[trigger] to.klasses[k].statics[j]).value,
    ) by {
    }
}

/// The parts of a sound sequence are sound.
proof fn lemma_parts(height: int, s: Seq<JvmValue>, n: int)
    requires
        all_sound(height, s),
    ensures
        0 <= n <= s.len() ==> all_sound(height, s.take(s.len() - n)),
        0 <= n <= s.len() ==> all_sound(height, s.subrange(s.len() - n, s.len() as int)),
        forall|v: JvmValue| sound(height, v) ==> all_sound(height, #[trigger] s.push(v)),
        forall|i: int, v: JvmValue|
            0 <= i < s.len() && sound(height, v) ==> all_sound(height, #[trigger] s.update(i, v)),
{
    if 0 <= n <= s.len() {
        assert forall|i: int| 0 <= i < s.take(s.len() - n).len() implies sound(
            height,
            #[trigger] s.take(s.len() - n)[i],
        ) by {
        }
        assert forall|i: int| 0 <= i < n implies sound(
            height,
            #[trigger] s.subrange(s.len() - n, s.len() as int)[i],
        ) by {
        }
    }
    assert forall|v: JvmValue| sound(height, v) implies all_sound(height, #[trigger] s.push(v)) by {
        assert forall|i: int| 0 <= i < s.push(v).len() implies sound(
            height,
            #[trigger] s.push(v)[i],
        ) by {
        }
    }
    assert forall|i: int, v: JvmValue| 0 <= i < s.len() && sound(height, v) implies all_sound(
        height,
        #[trigger] s.update(i, v),
    ) by {
        assert forall|j: int| 0 <= j < s.update(i, v).len() implies sound(
            height,
            #[trigger] s.update(i, v)[j],
        ) by {
        }
    }
}

proof fn lemma_local_sound(m: MachineModel)
    requires
        state_sound(m),
        m.frame.pc < m.frame.code.len(),
        is_local_op(m.frame.code[m.frame.pc as int]),
        local_step(m) is Goes,
    ensures
        state_sound(local_step(m)->to),
{
    let f = m.frame;
    let height = m.objects.len() as int;
    lemma_parts(height, f.stack, 1);
    lemma_parts(height, f.lvt, 0);
    lemma_same_heap(m, local_step(m)->to);
}

proof fn lemma_branch_sound(m: MachineModel)
    requires
        state_sound(m),
        m.frame.pc < m.frame.code.len(),
        branch_operands(m.frame.code[m.frame.pc as int]) is Some,
        branch_step(m) is Goes,
    ensures
        state_sound(branch_step(m)->to),
{
    let f = m.frame;
    let height = m.objects.len() as int;
    let (_, count) = branch_operands(f.code[f.pc as int])->0;
    lemma_parts(height, f.stack, count);
    lemma_same_heap(m, branch_step(m)->to);
}

proof fn lemma_switch_sound(m: MachineModel)
    requires
        state_sound(m),
        m.frame.pc < m.frame.code.len(),
        switch_step(m) is Goes || reference_step(m) is Goes,
    ensures
        switch_step(m) is Goes ==> state_sound(switch_step(m)->to),
        reference_step(m) is Goes ==> state_sound(reference_step(m)->to),
{
    let f = m.frame;
    let height = m.objects.len() as int;
    lemma_parts(height, f.stack, 1);
    if switch_step(m) is Goes {
        lemma_same_heap(m, switch_step(m)->to);
    }
    if reference_step(m) is Goes {
        lemma_same_heap(m, reference_step(m)->to);
    }
}

proof fn lemma_constant_sound(m: MachineModel)
    requires
        state_sound(m),
        m.frame.pc < m.frame.code.len(),
        is_constant_op(m.frame.code[m.frame.pc as int]),
        constant_step(m) is Goes,
    ensures
        state_sound(constant_step(m)->to),
{
    let f = m.frame;
    let to = constant_step(m)->to;
    let low = m.objects.len() as int;
    lemma_parts(low, f.stack, 0);
    if to.objects.len() == m.objects.len() {
        lemma_same_heap(m, to);
    } else {
        let high = low + 1;
        lemma_raise(low, high, f.stack);
        lemma_raise(low, high, f.lvt);
        lemma_parts(high, f.stack, 0);
        assert(to.objects.take(low) =~= m.objects);
        lemma_grown_heap(m, to);
    }
}

proof fn lemma_return_sound(m: MachineModel)
    requires
        state_sound(m),
        m.frame.pc < m.frame.code.len(),
        return_tag(m.frame.code[m.frame.pc as int]) is Some,
        return_step(m) is Goes,
    ensures
        state_sound(return_step(m)->to),
{
    let f = m.frame;
    let to = return_step(m)->to;
    let height = m.objects.len() as int;
    let caller = m.callers.last();
    lemma_parts(height, caller.stack, 0);
    assert forall|i: int| 0 <= i < to.callers.len() implies frame_sound(
        height,
        #[trigger] to.callers[i],
    ) by {
    }
}

proof fn lemma_invoke_sound(m: MachineModel)
    requires
        state_sound(m),
        m.frame.pc < m.frame.code.len(),
        is_invoke(m.frame.code[m.frame.pc as int]),
        invoke_step(m) is Goes,
    ensures
        state_sound(invoke_step(m)->to),
{
    let f = m.frame;
    let to = invoke_step(m)->to;
    let height = m.objects.len() as int;
    let plan = invoke_plan(m)->Ok_0;
    lemma_parts(height, f.stack, plan.taken);
    assert forall|i: int| 0 <= i < to.frame.lvt.len() implies sound(
        height,
        #[trigger] to.frame.lvt[i],
    ) by {
    }
    assert forall|i: int| 0 <= i < to.callers.len() implies frame_sound(
        height,
        #[trigger] to.callers[i],
    ) by {
    }
}

proof fn lemma_object_sound(m: MachineModel)
    requires
        state_sound(m),
        m.frame.pc < m.frame.code.len(),
        is_object_op(m.frame.code[m.frame.pc as int]),
        object_step(m) is Goes,
    ensures
        state_sound(object_step(m)->to),
{
    let f = m.frame;
    let op = f.code[f.pc as int];
    let to = object_step(m)->to;
    let low = m.objects.len() as int;
    lemma_parts(low, f.stack, 0);
    lemma_parts(low, f.stack, 1);
    lemma_parts(low, f.stack, 2);
    if op == Opcode::NEW {
        let high = low + 1;
        lemma_raise(low, high, f.stack);
        lemma_raise(low, high, f.lvt);
        lemma_parts(high, f.stack, 0);
        assert(to.objects.take(low) =~= m.objects);
        lemma_grown_heap(m, to);
    } else if op == Opcode::GETFIELD {
        lemma_same_heap(m, to);
    } else if op == Opcode::PUTFIELD {
        let r = under(f.stack)->ObjRef_val;
        lemma_parts(low, m.objects[r - 1].slots(), 0);
        assert forall|i: int| 0 <= i < to.objects.len() implies all_sound(
            low,
            (#[trigger] to.objects[i]).slots(),
        ) by {
        }
    } else if op == Opcode::GETSTATIC {
        lemma_same_heap(m, to);
    } else if op == Opcode::PUTSTATIC {
        let site = field_target(m.klasses, f.klass_id, operand_u16(f.code, f.pc as int) as u16)->0;
        assert forall|k: int, j: int|
            0 <= k < to.klasses.len() && 0 <= j < to.klasses[k].statics.len() implies sound(
            low,
            (#[trigger] to.klasses[k].statics[j]).value,
        ) by {
        }
    } else {
        lemma_same_heap(m, to);
    }
}

proof fn lemma_array_sound(m: MachineModel)
    requires
        state_sound(m),
        m.frame.pc < m.frame.code.len(),
        is_array_op(m.frame.code[m.frame.pc as int]),
        array_step(m) is Goes,
    ensures
        state_sound(array_step(m)->to),
{
    let f = m.frame;
    let op = f.code[f.pc as int];
    let to = array_step(m)->to;
    let low = m.objects.len() as int;
    lemma_parts(low, f.stack, 1);
    lemma_parts(low, f.stack, 2);
    lemma_parts(low, f.stack, 3);
    if op == Opcode::NEWARRAY || op == Opcode::ANEWARRAY {
        let high = low + 1;
        lemma_raise(low, high, f.stack);
        lemma_raise(low, high, f.lvt);
        lemma_parts(high, f.stack, 1);
        assert(to.objects.take(low) =~= m.objects);
        lemma_grown_heap(m, to);
    } else if op == Opcode::ARRAYLENGTH {
        lemma_same_heap(m, to);
    } else if Opcode::IALOAD <= op <= Opcode::SALOAD {
        lemma_same_heap(m, to);
    } else {
        let r = f.stack[f.stack.len() - 3]->ObjRef_val;
        lemma_parts(low, m.objects[r - 1].slots(), 0);
        assert forall|i: int| 0 <= i < to.objects.len() implies all_sound(
            low,
            (#[trigger] to.objects[i]).slots(),
        ) by {
        }
    }
}

/// A step of the machine keeps every reference sound: if every reference
/// that the machine holds is null or leads to an object before the step, so
/// it is after it.
pub proof fn lemma_references_stay_sound(m: MachineModel)
    requires
        state_sound(m),
        next(m) is Goes,
    ensures
        state_sound(next(m)->to),
{
    let f = m.frame;
    let op = f.code[f.pc as int];
    let height = m.objects.len() as int;
    if stack_effect(op, f.stack) is Some {
        lemma_stack_effect_sound(height, op, f.stack);
    } else if is_local_op(op) {
        lemma_local_sound(m);
    } else if branch_operands(op) is Some {
        lemma_branch_sound(m);
    } else if is_constant_op(op) {
        lemma_constant_sound(m);
    } else if return_tag(op) is Some {
        lemma_return_sound(m);
    } else if is_invoke(op) {
        lemma_invoke_sound(m);
    } else if is_object_op(op) {
        lemma_object_sound(m);
    } else if is_array_op(op) {
        lemma_array_sound(m);
    } else {
        lemma_switch_sound(m);
    }
}

/// A run of the machine keeps every reference sound.
pub proof fn lemma_run_stays_sound(m: MachineModel, fuel: nat)
    requires
        state_sound(m),
    ensures
        state_sound(run_of(m, fuel).0),
    decreases fuel,
{
    if fuel > 0 && next(m) is Goes {
        lemma_references_stay_sound(m);
        lemma_run_stays_sound(next(m)->to, (fuel - 1) as nat);
    }
}

/// The result of floating-point arithmetic is no reference, so taking it
/// from the host keeps every reference sound. What a native method returned
/// keeps them sound if it is sound itself.
pub proof fn lemma_answers_keep_sound(m: MachineModel, result: JvmValue)
    requires
        state_sound(m),
    ensures
        computed(m, result) is Goes ==> state_sound(computed(m, result)->to),
        answered(m, Some(result)) is Goes && sound(m.objects.len() as int, result) ==> state_sound(
            answered(m, Some(result))->to,
        ),
        answered(m, None) is Goes ==> state_sound(answered(m, None)->to),
{
    let f = m.frame;
    let height = m.objects.len() as int;
    if computed(m, result) is Goes {
        let (_, count, _) = host_signature(f.code[f.pc as int])->0;
        lemma_parts(height, f.stack, count);
        lemma_parts(height, f.stack.take(f.stack.len() - count), 0);
        lemma_same_heap(m, computed(m, result)->to);
    }
    if answered(m, None) is Goes {
        let plan = invoke_plan(m)->Ok_0;
        lemma_parts(height, f.stack, plan.taken);
        lemma_parts(height, f.stack.take(f.stack.len() - plan.taken), 0);
        lemma_same_heap(m, answered(m, None)->to);
        if sound(height, result) {
            lemma_same_heap(m, answered(m, Some(result))->to);
        }
    }
}

} // verus!
