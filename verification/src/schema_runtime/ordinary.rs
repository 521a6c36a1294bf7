//! Reply constructors of the ordinary socket.

use crate::runtime_model::{
    EventLogPage, GenerationListing, KeyMaterialReport, RejectedQuery, RejectedWatch, SubscriptionClosed,
    SubscriptionOpened, TestRunListing,
};
use vstd::prelude::*;

verus! {

/// A subscription was opened.
#[derive(Clone, Copy, Debug, PartialEq, Eq)]
pub struct Watching;

impl Watching {
    /// The payload of the reply.
    pub fn new(payload: SubscriptionOpened) -> (r: SubscriptionOpened)
        ensures
            r == payload,
    {
        payload
    }
}

/// A subscription was refused.
#[derive(Clone, Copy, Debug, PartialEq, Eq)]
pub struct WatchRejected;

impl WatchRejected {
    /// The payload of the reply.
    pub fn new(payload: RejectedWatch) -> (r: RejectedWatch)
        ensures
            r == payload,
    {
        payload
    }
}

/// A subscription was closed.
#[derive(Clone, Copy, Debug, PartialEq, Eq)]
pub struct Unwatched;

impl Unwatched {
    /// The payload of the reply.
    pub fn new(payload: SubscriptionClosed) -> (r: SubscriptionClosed)
        ensures
            r == payload,
    {
        payload
    }
}

/// Generations were listed.
#[derive(Clone, Copy, Debug, PartialEq, Eq)]
pub struct Queried;

impl Queried {
    /// The payload of the reply.
    pub fn new(payload: GenerationListing) -> (r: GenerationListing)
        ensures
            r == payload,
    {
        payload
    }
}

/// Key material was checked.
#[derive(Clone, Copy, Debug, PartialEq, Eq)]
pub struct KeyMaterialChecked;

impl KeyMaterialChecked {
    /// The payload of the reply.
    pub fn new(payload: KeyMaterialReport) -> (r: KeyMaterialReport)
        ensures
            r == payload,
    {
        payload
    }
}

/// Test runs were listed.
#[derive(Clone, Copy, Debug, PartialEq, Eq)]
pub struct TestRunsQueried;

impl TestRunsQueried {
    /// The payload of the reply.
    pub fn new(payload: TestRunListing) -> (r: TestRunListing)
        ensures
            r == payload,
    {
        payload
    }
}

/// Events were listed.
#[derive(Clone, Copy, Debug, PartialEq, Eq)]
pub struct DeploymentEventsQueried;

impl DeploymentEventsQueried {
    /// The payload of the reply.
    pub fn new(payload: EventLogPage) -> (r: EventLogPage)
        ensures
            r == payload,
    {
        payload
    }
}

/// A query was refused.
#[derive(Clone, Copy, Debug, PartialEq, Eq)]
pub struct QueryRejected;

impl QueryRejected {
    /// The payload of the reply.
    pub fn new(payload: RejectedQuery) -> (r: RejectedQuery)
        ensures
            r == payload,
    {
        payload
    }
}

} // verus!
