//! The results by which calls refuse.
use vstd::prelude::*;

verus! {

/// An argument was not valid.
pub open spec fn invalid() -> i32 {
    (-22) as i32
}

/// The operation is not supported here.
pub open spec fn unsupported() -> i32 {
    (-95) as i32
}

/// No record is free.
pub open spec fn no_space() -> i32 {
    (-28) as i32
}

/// There is no memory.
pub open spec fn no_memory() -> i32 {
    (-12) as i32
}

/// There is one already.
pub open spec fn already_there() -> i32 {
    (-17) as i32
}

} // verus!
