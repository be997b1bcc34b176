//! Core error type. Deliberately small; subsystems wrap this with their own context.

use vstd::prelude::*;

use crate::projection::TransitionError;

verus! {

#[derive(Debug)]
pub enum CoreError {
    /// An illegal projection transition.
    Transition(TransitionError),
    /// Input rejected by the loop guard.
    LoopGuard(String),
    /// Protocol version mismatch.
    ProtocolVersion { local: u32, peer: u32 },
    /// An invalid identifier.
    InvalidId(String),
}

impl From<TransitionError> for CoreError {
    fn from(e: TransitionError) -> (r: Self)
        ensures
            r == CoreError::Transition(e),
    {
        CoreError::Transition(e)
    }
}

impl vstd::std_specs::convert::FromSpecImpl<TransitionError> for CoreError {
    open spec fn obeys_from_spec() -> bool {
        true
    }

    open spec fn from_spec(e: TransitionError) -> Self {
        CoreError::Transition(e)
    }
}

} // verus!
