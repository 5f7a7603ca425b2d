//! The discriminated failure kinds a composite request can terminate
//! with, one per pipeline stage that can be refused by the device runtime.

use vstd::prelude::*;

verus! {

/// The failure kinds of one composite request. Each surfaces immediately to
/// the caller as a terminal result for that request: the pipeline's linear
/// state machine has no retry or fallback path.
#[derive(Clone, Copy, Debug, PartialEq, Eq, Structural)]
pub enum CompositeError {
    /// A layer's pixel count is inconsistent with the declared width and height.
    ShapeMismatch,
    /// The device could not provision an input or output buffer.
    AllocationFailure,
    /// Argument binding or kernel launch was rejected by the device runtime.
    DispatchFailure,
    /// The device-to-host transfer of the output buffer could not complete.
    ReadbackFailure,
}

impl CompositeError {
    /// A short human-readable name for the failure kind.
    pub fn describe(&self) -> (s: &'static str)
        ensures
            s@ == self.spec_describe(),
    {
        match self {
            CompositeError::ShapeMismatch => "shape mismatch",
            CompositeError::AllocationFailure => "allocation failure",
            CompositeError::DispatchFailure => "dispatch failure",
            CompositeError::ReadbackFailure => "readback failure",
        }
    }

    /// What `describe` returns for each failure kind.
    pub open spec fn spec_describe(self) -> Seq<char> {
        match self {
            CompositeError::ShapeMismatch => "shape mismatch"@,
            CompositeError::AllocationFailure => "allocation failure"@,
            CompositeError::DispatchFailure => "dispatch failure"@,
            CompositeError::ReadbackFailure => "readback failure"@,
        }
    }
}

} // verus!
