use vstd::prelude::*;

verus! {

/// Status domain shared with the rendering engine: one distinguished success
/// value, every other value a distinct failure reason that is handed back to
/// the caller unchanged.
#[derive(Clone, Copy, Debug, PartialEq, Eq, Structural)]
pub enum Status {
    Success,
    InvalidParameter,
    InsufficientBufferSize,
    OperationFailed,
}

} // verus!
