use vstd::prelude::*;

verus! {

/// Why the machine cannot go on. Each of these is a broken invariant of the
/// code or of the classes it runs against; none is an exception that the
/// running program could catch.
#[derive(Clone, Copy, Debug, PartialEq, Eq, Structural)]
pub enum FatalError {
    /// The program counter is outside the code, or an operand is cut off by
    /// the end of the code.
    CodeOverrun,
    /// The operation code is not one that the machine performs.
    BadOpcode,
    /// The stack holds too few values, or values of another type than the
    /// operation takes.
    BadOperands,
    /// An integer was divided by zero.
    DivisionByZero,
    /// The index of a local variable is outside the table.
    BadLocal,
    /// A branch leads outside the code.
    BadBranch,
    /// The constant pool holds no entry of the kind the operation needs at
    /// the index given, or the entry has no text.
    BadConstant,
    /// A method descriptor is malformed.
    BadDescriptor,
    /// The repository has no class of the name.
    UnknownKlass,
    /// No method of the name and descriptor was found.
    UnknownMethod,
    /// No field of the name was found, or it is static where an instance
    /// field is needed, or the other way round.
    UnknownField,
    /// The null reference was used as an object.
    NullReference,
    /// A reference leads to no object, or to one of the wrong kind.
    BadReference,
    /// A slot of an object or an element of an array outside its bounds.
    BadIndex,
    /// An array was asked for with a negative length.
    NegativeArraySize,
    /// The type code of a new array is none of the primitive types.
    BadArrayType,
    /// The heap can give out no further reference.
    OutOfMemory,
    /// A cast to a class that the object is no instance of.
    BadCast,
    /// An object was thrown. The machine knows no handlers, so nothing can
    /// catch it.
    Uncaught,
}

} // verus!
