//! Requests that are answered without the point of the ledger.

use crate::generated::Input;
use crate::runtime::conversation::{Conversation, Turn};
use crate::runtime::trace::{Plane, TraceWitness};
use vstd::prelude::*;

verus! {

/// Asks the root for the answer to a request.
#[derive(Debug, PartialEq, Eq)]
pub struct DispatchInput(pub Input);

/// Asks the dispatcher to drive a request.
#[derive(Debug, PartialEq, Eq)]
pub struct Dispatch(pub Input);

impl Dispatch {
    /// Starts to drive the request.
    pub fn drive(self, witnesses: &mut Vec<TraceWitness>) -> (r: (Conversation, Turn))
        ensures
            r.0.plane == Plane::OperationDispatcher,
            !r.0.marks,
            r.0.starts(self.0, r.1),
            final(witnesses)@ == old(witnesses)@ + Conversation::opening(
                Plane::OperationDispatcher,
                false,
                self.0,
            ),
    {
        Conversation::begin(Plane::OperationDispatcher, false, self.0, witnesses)
    }
}

} // verus!
