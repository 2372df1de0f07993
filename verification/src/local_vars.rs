use vstd::prelude::*;
use crate::value::JvmValue;

verus! {

/// The operand byte of an increment, read as a signed number.
pub open spec fn signed_byte(b: u8) -> int {
    if b >= 128 {
        b - 256
    } else {
        b as int
    }
}

pub fn byte_as_signed(b: u8) -> (k: i32)
    ensures
        k == signed_byte(b),
{
    if b >= 128 {
        b as i32 - 256
    } else {
        b as i32
    }
}

/// The local variables of one method activation: a table of fixed length.
pub struct InterpLocalVars {
    lvt: Vec<JvmValue>,
}

impl View for InterpLocalVars {
    type V = Seq<JvmValue>;

    closed spec fn view(&self) -> Seq<JvmValue> {
        self.lvt@
    }
}

impl InterpLocalVars {
    /// A table of `var_count` variables, each holding the default value.
    pub fn of(var_count: u8) -> (out: InterpLocalVars)
        ensures
            out@ == Seq::new(var_count as nat, |i: int| JvmValue::Int { val: 0 }),
    {
        let mut out = InterpLocalVars { lvt: Vec::new() };
        let mut i: u8 = 0;
        while i < var_count
            invariant
                i <= var_count,
                out.lvt@ == Seq::new(i as nat, |k: int| JvmValue::Int { val: 0 }),
            decreases var_count - i,
        {
            out.lvt.push(JvmValue::default());
            i = i + 1;
        }
        out
    }

    pub fn len(&self) -> (n: usize)
        ensures
            n == self@.len(),
    {
        self.lvt.len()
    }

    pub fn load(&self, idx: u8) -> (v: JvmValue)
        requires
            (idx as int) < self@.len(),
        ensures
            v == self@[idx as int],
    {
        self.lvt[idx as usize]
    }

    pub fn store(&mut self, idx: u8, val: JvmValue)
        requires
            (idx as int) < old(self)@.len(),
        ensures
            final(self)@ == old(self)@.update(idx as int, val),
    {
        self.lvt[idx as usize] = val
    }

    /// Adds the signed byte `incr` to the integer at `idx`; the sum wraps.
    pub fn iinc(&mut self, idx: u8, incr: u8)
        requires
            (idx as int) < old(self)@.len(),
            old(self)@[idx as int].is_int_like(),
        ensures
            final(self)@ == old(self)@.update(
                idx as int,
                JvmValue::Int {
                    val: old(self)@[idx as int].int_value().wrapping_add(
                        signed_byte(incr) as i32,
                    ),
                },
            ),
    {
        match self.lvt[idx as usize].as_int() {
            Some(v) => {
                self.lvt[idx as usize] = JvmValue::Int { val: v.wrapping_add(byte_as_signed(incr)) };
            },
            None => {
                vstd::pervasive::unreached::<()>();
            },
        }
    }
}

} // verus!
