//! Execution core of a small dynamic-language virtual machine: stack frames
//! with lexical parents, exception frames, and an interned string table.

pub mod env;
pub mod exframe;
pub mod interned_string_map;
pub mod value;
