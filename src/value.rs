//! Tagged values stored in frame slots, and handler functions.
use vstd::prelude::*;

verus! {

/// Tag of the nil value.
pub const TAG_NIL: u8 = 0;

/// A tagged machine value as it is stored in a frame slot.
#[derive(Clone, Copy, Debug, PartialEq, Eq, Structural)]
pub struct NativeValue {
    /// Which kind of value this is.
    pub tag: u8,
    /// The value's payload (an integer, or a handle into the heap).
    pub data: u64,
}

impl NativeValue {
    /// The language's nil value.
    pub open spec fn spec_nil() -> NativeValue {
        NativeValue { tag: TAG_NIL, data: 0 }
    }

    /// Returns the nil value.
    pub fn nil() -> (r: NativeValue)
        ensures
            r == NativeValue::spec_nil(),
    {
        NativeValue { tag: TAG_NIL, data: 0 }
    }
}

/// A function value that can be registered as an exception handler.
#[derive(Clone, Copy, Debug, PartialEq, Eq, Structural)]
pub struct Function {
    /// Instruction pointer of the function's body.
    pub ip: u32,
    /// Number of arguments the function takes.
    pub nargs: u16,
}

/// The identity of a class (prototype) object, as opposed to its contents.
#[derive(Clone, Copy, Debug, PartialEq, Eq, Structural)]
pub struct ClassId {
    /// A stable token that identifies the prototype object.
    pub id: u64,
}

} // verus!
