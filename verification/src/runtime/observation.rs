//! The observation plane: who is told of observations, and the last one.

use crate::generated::ObservationRecord;
use vstd::prelude::*;

verus! {

/// The handles that observations are pushed into.
#[derive(Debug, PartialEq, Eq)]
pub struct SubscriberSet<Handle> {
    pub handles: Vec<Handle>,
}

/// The handles whose delivery succeeded, in order.
pub open spec fn delivered_handles<Handle>(handles: Seq<Handle>, delivered: Seq<bool>) -> Seq<Handle>
    decreases handles.len(),
{
    if handles.len() == 0 {
        Seq::empty()
    } else {
        let rest = delivered_handles(handles.drop_last(), delivered.drop_last());
        if delivered.last() {
            rest.push(handles.last())
        } else {
            rest
        }
    }
}

impl<Handle> SubscriberSet<Handle> {
    /// No subscriber.
    pub fn new() -> (r: Self)
        ensures
            r.handles@.len() == 0,
    {
        SubscriberSet { handles: Vec::new() }
    }

    /// How many subscribers there are.
    pub fn len(&self) -> (r: usize)
        ensures
            r == self.handles@.len(),
    {
        self.handles.len()
    }

    /// Whether there is no subscriber.
    pub fn is_empty(&self) -> (r: bool)
        ensures
            r == (self.handles@.len() == 0),
    {
        self.handles.len() == 0
    }

    /// Adds a subscriber.
    pub fn push(&mut self, handle: Handle)
        ensures
            final(self).handles@ == old(self).handles@.push(handle),
    {
        self.handles.push(handle);
    }

    /// Keeps the subscribers that a broadcast reached. `delivered` says so for
    /// each of them, in order.
    pub fn retain_delivered(&mut self, delivered: &Vec<bool>)
        requires
            delivered@.len() == old(self).handles@.len(),
        ensures
            final(self).handles@ == delivered_handles(old(self).handles@, delivered@),
    {
        let ghost all = self.handles@;
        let size: usize = self.handles.len();
        let mut remaining: Vec<Handle> = Vec::new();
        let mut i: usize = 0;
        while i < size
            invariant
                i <= size,
                size == all.len(),
                delivered@.len() == all.len(),
                self.handles@ =~= all.skip(i as int),
                remaining@ == delivered_handles(all.take(i as int), delivered@.take(i as int)),
            decreases size - i,
        {
            let handle = self.handles.remove(0);
            assert(handle == all[i as int]);
            assert(all.take(i + 1).drop_last() =~= all.take(i as int));
            assert(delivered@.take(i + 1).drop_last() =~= delivered@.take(i as int));
            assert(all.take(i + 1).last() == all[i as int]);
            assert(delivered@.take(i + 1).last() == delivered@[i as int]);
            if delivered[i] {
                remaining.push(handle);
            }
            i = i + 1;
        }
        assert(all.take(i as int) =~= all);
        assert(delivered@.take(i as int) =~= delivered@);
        self.handles = remaining;
    }
}

/// The observation plane.
#[derive(Debug, PartialEq, Eq)]
pub struct ObservationFan<Handle> {
    pub subscribers: SubscriberSet<Handle>,
    pub most_recent: Option<ObservationRecord>,
}

/// Asks to be told of observations.
#[derive(Debug, PartialEq, Eq)]
pub struct Subscribe<Handle>(pub Handle);

/// Asks to tell every subscriber of an observation.
#[derive(Debug, PartialEq, Eq)]
pub struct BroadcastObservation(pub ObservationRecord);

impl<Handle> ObservationFan<Handle> {
    /// A plane with no subscriber.
    pub fn new() -> (r: Self)
        ensures
            r.subscribers.handles@.len() == 0,
            r.most_recent is None,
    {
        ObservationFan { subscribers: SubscriberSet::new(), most_recent: None }
    }

    /// How many subscribers there are.
    pub fn subscriber_count(&self) -> (r: usize)
        ensures
            r == self.subscribers.handles@.len(),
    {
        self.subscribers.len()
    }

    /// The last observation.
    pub fn most_recent(&self) -> (r: Option<&ObservationRecord>)
        ensures
            match (r, self.most_recent) {
                (Some(record), Some(expected)) => *record == expected,
                (None, None) => true,
                _ => false,
            },
    {
        match &self.most_recent {
            Some(record) => Some(record),
            None => None,
        }
    }

    /// Adds a subscriber.
    pub fn subscribe(&mut self, message: Subscribe<Handle>)
        ensures
            final(self).subscribers.handles@ == old(self).subscribers.handles@.push(message.0),
            final(self).most_recent == old(self).most_recent,
    {
        self.subscribers.push(message.0);
    }

    /// Takes an observation to be told to every subscriber.
    pub fn publish(&mut self, message: &BroadcastObservation)
        ensures
            final(self).most_recent == Some(message.0),
            final(self).subscribers == old(self).subscribers,
    {
        self.most_recent = Some(message.0.clone());
    }

    /// Drops the subscribers that an observation did not reach.
    pub fn settle(&mut self, delivered: &Vec<bool>)
        requires
            delivered@.len() == old(self).subscribers.handles@.len(),
        ensures
            final(self).subscribers.handles@ == delivered_handles(
                old(self).subscribers.handles@,
                delivered@,
            ),
            final(self).most_recent == old(self).most_recent,
    {
        self.subscribers.retain_delivered(delivered);
    }
}

/// Where every delivery succeeds, no subscriber is lost.
pub proof fn law_reached_subscribers_stay<Handle>(handles: Seq<Handle>, delivered: Seq<bool>)
    requires
        delivered.len() == handles.len(),
        forall|i: int| 0 <= i < delivered.len() ==> delivered[i],
    ensures
        delivered_handles(handles, delivered) == handles,
    decreases handles.len(),
{
    if handles.len() > 0 {
        law_reached_subscribers_stay(handles.drop_last(), delivered.drop_last());
        assert(handles.drop_last().push(handles.last()) =~= handles);
    } else {
        assert(delivered_handles(handles, delivered) =~= handles);
    }
}

} // verus!
