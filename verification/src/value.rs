use vstd::prelude::*;

verus! {

/// A value as the interpreter sees it on the evaluation stack, in a local
/// variable or in a heap slot.
///
/// `Float` and `Double` carry the IEEE-754 bit pattern of the number, so that a
/// value is plain data and two values are equal exactly when they are the same
/// bits. `ObjRef` is an index into the heap; 0 is the null reference.
#[derive(Clone, Copy, Debug, PartialEq, Eq, Structural)]
#[allow(inconsistent_fields)]
pub enum JvmValue {
    Boolean { val: bool },
    Byte { val: i8 },
    Short { val: i16 },
    Int { val: i32 },
    Long { val: i64 },
    Float { val: u32 },
    Double { val: u64 },
    Char { val: u16 },
    ObjRef { val: u64 },
}

impl JvmValue {
    /// The descriptor letter of the value's type; `'A'` stands for a reference.
    pub open spec fn spec_name(&self) -> char {
        match *self {
            JvmValue::Boolean { .. } => 'Z',
            JvmValue::Byte { .. } => 'B',
            JvmValue::Short { .. } => 'S',
            JvmValue::Int { .. } => 'I',
            JvmValue::Long { .. } => 'J',
            JvmValue::Float { .. } => 'F',
            JvmValue::Double { .. } => 'D',
            JvmValue::Char { .. } => 'C',
            JvmValue::ObjRef { .. } => 'A',
        }
    }

    /// The descriptor letter of the value's type.
    #[verifier::when_used_as_spec(spec_name)]
    pub fn name(&self) -> (c: char)
        ensures
            c == self.spec_name(),
    {
        match *self {
            JvmValue::Boolean { val: _ } => 'Z',
            JvmValue::Byte { val: _ } => 'B',
            JvmValue::Short { val: _ } => 'S',
            JvmValue::Int { val: _ } => 'I',
            JvmValue::Long { val: _ } => 'J',
            JvmValue::Float { val: _ } => 'F',
            JvmValue::Double { val: _ } => 'D',
            JvmValue::Char { val: _ } => 'C',
            JvmValue::ObjRef { val: _ } => 'A',
        }
    }

    /// Whether the value can stand where an integer is wanted: an integer
    /// itself, or one of the narrower types that an integer is cut down to.
    pub open spec fn is_int_like(&self) -> bool {
        *self is Int || *self is Byte || *self is Short || *self is Char || *self is Boolean
    }

    /// The integer that the value stands for where an integer is wanted: a
    /// byte and a short with their sign, a char without one, true as 1 and
    /// false as 0.
    pub open spec fn int_value(&self) -> i32 {
        match *self {
            JvmValue::Int { val } => val,
            JvmValue::Byte { val } => val as i32,
            JvmValue::Short { val } => val as i32,
            JvmValue::Char { val } => val as i32,
            JvmValue::Boolean { val } => if val {
                1i32
            } else {
                0i32
            },
            _ => 0i32,
        }
    }

    /// Whether the value can stand where one of the type `tag` is wanted.
    pub open spec fn fits(&self, tag: char) -> bool {
        if tag == 'I' {
            self.is_int_like()
        } else {
            self.spec_name() == tag
        }
    }

    /// The integer that the value stands for, if it can stand for one.
    pub fn as_int(&self) -> (i: Option<i32>)
        ensures
            i == (if self.is_int_like() {
                Some(self.int_value())
            } else {
                None
            }),
    {
        match *self {
            JvmValue::Int { val } => Some(val),
            JvmValue::Byte { val } => Some(val as i32),
            JvmValue::Short { val } => Some(val as i32),
            JvmValue::Char { val } => Some(val as i32),
            JvmValue::Boolean { val } => Some(
                if val {
                    1
                } else {
                    0
                },
            ),
            _ => None,
        }
    }

    /// Whether the value can stand where one of the type `tag` is wanted.
    #[verifier::when_used_as_spec(fits)]
    pub fn has_type(&self, tag: char) -> (b: bool)
        ensures
            b == self.fits(tag),
    {
        if tag == 'I' {
            self.as_int().is_some()
        } else {
            self.name() == tag
        }
    }
}

impl Default for JvmValue {
    fn default() -> (v: JvmValue)
        ensures
            v == (JvmValue::Int { val: 0 }),
    {
        JvmValue::Int { val: 0i32 }
    }
}

} // verus!
