use vstd::prelude::*;

verus! {

/// The ways in which a buffer can fail to hold a protocol data unit.
#[derive(Debug, Clone, Copy, PartialEq, Eq, Structural)]
pub enum Error {
    /// The buffer ends before the header it is supposed to hold.
    Truncated,
    /// The buffer holds a header whose fields are not acceptable.
    Malformed,
}

} // verus!
