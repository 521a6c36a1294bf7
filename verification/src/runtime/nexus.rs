//! The mail keeper: each request is a mail that is accepted, worked on and answered.

use crate::error::Error;
use crate::generated::{
    Input, MailLifecycle, MarkedOutput, MessageIdentifier, MessageProcessed, MessageSent,
};
use crate::runtime::conversation::{Conversation, Turn};
use crate::runtime::trace::{Plane, TraceWitness};
use vstd::prelude::*;

verus! {

/// One mail and the states it has been in.
#[derive(Clone, Debug, PartialEq, Eq)]
pub struct MailEntry {
    pub identifier: MessageIdentifier,
    pub input: Input,
    pub lifecycle: MailLifecycle,
    pub lifecycle_path: Vec<MailLifecycle>,
}

impl MailEntry {
    /// The mail has been in the states of `path`, the last of which it is in.
    pub open spec fn is_mail(
        &self,
        identifier: MessageIdentifier,
        input: Input,
        path: Seq<MailLifecycle>,
    ) -> bool {
        &&& self.identifier == identifier
        &&& self.input == input
        &&& self.lifecycle_path@ == path
        &&& path.len() > 0
        &&& self.lifecycle == path.last()
    }

    /// A mail that was just accepted.
    pub fn new(identifier: MessageIdentifier, input: Input) -> (r: Self)
        ensures
            r.is_mail(identifier, input, seq![MailLifecycle::Sent]),
    {
        let mut lifecycle_path: Vec<MailLifecycle> = Vec::new();
        lifecycle_path.push(MailLifecycle::Sent);
        assert(lifecycle_path@ =~= seq![MailLifecycle::Sent]);
        MailEntry { identifier, input, lifecycle: MailLifecycle::Sent, lifecycle_path }
    }

    /// The mail's identifier.
    pub fn identifier(&self) -> (r: MessageIdentifier)
        ensures
            r == self.identifier,
    {
        self.identifier
    }

    /// The request.
    pub fn input(&self) -> (r: &Input)
        ensures
            *r == self.input,
    {
        &self.input
    }

    /// The state that the mail is in.
    pub fn lifecycle(&self) -> (r: MailLifecycle)
        ensures
            r == self.lifecycle,
    {
        self.lifecycle
    }

    /// The states that the mail has been in.
    pub fn lifecycle_path(&self) -> (r: &Vec<MailLifecycle>)
        ensures
            r@ == self.lifecycle_path@,
    {
        &self.lifecycle_path
    }

    /// Moves the mail to another state.
    pub fn transition(&mut self, next: MailLifecycle)
        ensures
            final(self).lifecycle == next,
            final(self).lifecycle_path@ == old(self).lifecycle_path@.push(next),
            final(self).identifier == old(self).identifier,
            final(self).input == old(self).input,
    {
        self.lifecycle = next;
        self.lifecycle_path.push(next);
    }
}

/// Asks the keeper to drive a request.
#[derive(Debug, PartialEq, Eq)]
pub struct DispatchMail(pub Input);

/// Asks the keeper for its mails.
#[derive(Clone, Copy, Debug, PartialEq, Eq)]
pub struct MailLog;

/// The keeper's mails at one point.
#[derive(Clone, Debug, PartialEq, Eq)]
pub struct MailLogSnapshot {
    pub in_flight: Vec<MailEntry>,
    pub completed: Vec<MailEntry>,
}

/// The first of `entries` with `identifier`.
pub open spec fn first_mail(entries: Seq<MailEntry>, identifier: MessageIdentifier) -> Option<MailEntry>
    decreases entries.len(),
{
    if entries.len() == 0 {
        None
    } else if entries[0].identifier == identifier {
        Some(entries[0])
    } else {
        first_mail(entries.skip(1), identifier)
    }
}

/// The entries whose identifier is another, in order.
pub open spec fn without_mail(entries: Seq<MailEntry>, identifier: MessageIdentifier) -> Seq<MailEntry>
    decreases entries.len(),
{
    if entries.len() == 0 {
        Seq::empty()
    } else {
        let rest = without_mail(entries.drop_last(), identifier);
        if entries.last().identifier != identifier {
            rest.push(entries.last())
        } else {
            rest
        }
    }
}

impl MailLogSnapshot {
    /// The mails that are worked on.
    pub fn in_flight(&self) -> (r: &Vec<MailEntry>)
        ensures
            r@ == self.in_flight@,
    {
        &self.in_flight
    }

    /// The mails that are done.
    pub fn completed(&self) -> (r: &Vec<MailEntry>)
        ensures
            r@ == self.completed@,
    {
        &self.completed
    }

    /// The first mail that is done under `identifier`.
    pub fn find_completed(&self, identifier: MessageIdentifier) -> (r: Option<&MailEntry>)
        ensures
            match (r, first_mail(self.completed@, identifier)) {
                (Some(entry), Some(expected)) => *entry == expected,
                (None, None) => true,
                _ => false,
            },
    {
        let ghost all = self.completed@;
        let mut i: usize = 0;
        assert(all.skip(0) =~= all);
        while i < self.completed.len()
            invariant
                i <= self.completed@.len(),
                all == self.completed@,
                first_mail(all, identifier) == first_mail(all.skip(i as int), identifier),
            decreases self.completed@.len() - i,
        {
            assert(all.skip(i as int)[0] == all[i as int]);
            if self.completed[i].identifier == identifier {
                return Some(&self.completed[i]);
            }
            assert(all.skip(i as int).skip(1) =~= all.skip(i + 1));
            i = i + 1;
        }
        None
    }
}

/// The mail keeper.
#[derive(Debug, PartialEq, Eq)]
pub struct NexusMailKeeper {
    pub in_flight: Vec<MailEntry>,
    pub completed: Vec<MailEntry>,
    pub next_identifier: u64,
}

impl NexusMailKeeper {
    /// A keeper with no mail.
    pub fn new() -> (r: Self)
        ensures
            r.in_flight@.len() == 0,
            r.completed@.len() == 0,
            r.next_identifier == 1,
    {
        NexusMailKeeper { in_flight: Vec::new(), completed: Vec::new(), next_identifier: 1 }
    }

    /// The mails that are worked on.
    pub fn in_flight(&self) -> (r: &Vec<MailEntry>)
        ensures
            r@ == self.in_flight@,
    {
        &self.in_flight
    }

    /// The mails that are done.
    pub fn completed(&self) -> (r: &Vec<MailEntry>)
        ensures
            r@ == self.completed@,
    {
        &self.completed
    }

    /// Every mail was numbered by the keeper, and no two that are worked on share
    /// a number.
    pub open spec fn is_numbered(&self) -> bool {
        &&& forall|i: int|
            0 <= i < self.in_flight@.len() ==> (#[trigger] self.in_flight@[i]).identifier.0
                < self.next_identifier
        &&& forall|i: int|
            0 <= i < self.completed@.len() ==> (#[trigger] self.completed@[i]).identifier.0
                < self.next_identifier
        &&& forall|i: int, j: int|
            0 <= i < j < self.in_flight@.len() ==> (#[trigger] self.in_flight@[i]).identifier != (
            #[trigger] self.in_flight@[j]).identifier
    }

    /// The states of a mail that is worked on.
    pub open spec fn working_path() -> Seq<MailLifecycle> {
        seq![MailLifecycle::Sent, MailLifecycle::Queued, MailLifecycle::Processing]
    }

    /// Accepts a mail and starts to work on it.
    pub fn accept(&mut self, message: DispatchMail, witnesses: &mut Vec<TraceWitness>) -> (r: (
        MessageSent,
        Conversation,
        Turn,
    ))
        requires
            old(self).next_identifier < u64::MAX,
        ensures
            ({
                let identifier = MessageIdentifier(old(self).next_identifier);
                let plane = Plane::NexusMailKeeper;
                &&& r.0 == (MessageSent { identifier, input: message.0 })
                &&& r.1.plane == plane
                &&& r.1.marks
                &&& r.1.starts(message.0, r.2)
                &&& final(self).in_flight@.len() == old(self).in_flight@.len() + 1
                &&& final(self).in_flight@.drop_last() == old(self).in_flight@
                &&& final(self).in_flight@.last().is_mail(
                    identifier,
                    message.0,
                    Self::working_path(),
                )
                &&& final(self).completed == old(self).completed
                &&& final(self).next_identifier == old(self).next_identifier + 1
                &&& final(witnesses)@ == old(witnesses)@ + seq![
                    TraceWitness::MailSent { plane, identifier: identifier.0 },
                    TraceWitness::MailQueued { plane, identifier: identifier.0 },
                    TraceWitness::MailProcessing { plane, identifier: identifier.0 },
                ] + Conversation::opening(plane, true, message.0)
            }),
            old(self).is_numbered() ==> final(self).is_numbered(),
    {
        let number = self.next_identifier;
        let identifier = MessageIdentifier(number);
        self.next_identifier = number + 1;
        let input = message.0;
        let mut entry = MailEntry::new(identifier, input.clone());
        let sent = MessageSent { identifier, input: input.clone() };
        let plane = Plane::NexusMailKeeper;
        witnesses.push(TraceWitness::MailSent { plane, identifier: number });
        entry.transition(MailLifecycle::Queued);
        witnesses.push(TraceWitness::MailQueued { plane, identifier: number });
        entry.transition(MailLifecycle::Processing);
        witnesses.push(TraceWitness::MailProcessing { plane, identifier: number });
        assert(entry.lifecycle_path@ =~= Self::working_path());
        self.in_flight.push(entry);
        assert(self.in_flight@.drop_last() =~= old(self).in_flight@);
        let ghost opened = witnesses@;
        assert(opened =~= old(witnesses)@ + seq![
            TraceWitness::MailSent { plane, identifier: number },
            TraceWitness::MailQueued { plane, identifier: number },
            TraceWitness::MailProcessing { plane, identifier: number },
        ]);
        let (conversation, turn) = Conversation::begin(plane, true, input, witnesses);
        (sent, conversation, turn)
    }

    /// Ends the work on a mail that was replied to or failed.
    pub fn settle(
        &mut self,
        identifier: MessageIdentifier,
        reply: Result<MarkedOutput, Error>,
        witnesses: &mut Vec<TraceWitness>,
    ) -> (r: Result<MessageProcessed, Error>)
        requires
            first_mail(old(self).in_flight@, identifier) is Some,
        ensures
            ({
                let entry = first_mail(old(self).in_flight@, identifier)->0;
                let ended = if reply is Ok {
                    MailLifecycle::Replied
                } else {
                    MailLifecycle::Failed
                };
                &&& final(self).in_flight@ == without_mail(old(self).in_flight@, identifier)
                &&& final(self).completed@.len() == old(self).completed@.len() + 1
                &&& final(self).completed@.drop_last() == old(self).completed@
                &&& final(self).completed@.last().is_mail(
                    entry.identifier,
                    entry.input,
                    entry.lifecycle_path@.push(ended),
                )
                &&& final(self).next_identifier == old(self).next_identifier
            }),
            match reply {
                Ok(output) => {
                    &&& r == Ok::<MessageProcessed, Error>(
                        MessageProcessed { identifier, reply: output },
                    )
                    &&& final(witnesses)@ == old(witnesses)@.push(
                        TraceWitness::MailReplied {
                            plane: Plane::NexusMailKeeper,
                            identifier: identifier.0,
                        },
                    )
                },
                Err(error) => {
                    &&& r == Err::<MessageProcessed, Error>(error)
                    &&& final(witnesses)@ == old(witnesses)@
                },
            },
    {
        let ghost all = self.in_flight@;
        let size: usize = self.in_flight.len();
        let mut remaining: Vec<MailEntry> = Vec::new();
        let mut found: Option<MailEntry> = None;
        let mut i: usize = 0;
        proof {
            assert(all.skip(0) =~= all);
        }
        while i < size
            invariant
                i <= size,
                size == all.len(),
                self.in_flight@ =~= all.skip(i as int),
                remaining@ == without_mail(all.take(i as int), identifier),
                found is None ==> first_mail(all, identifier) == first_mail(
                    all.skip(i as int),
                    identifier,
                ),
                found is Some ==> found == first_mail(all, identifier),
                self.completed == old(self).completed,
                self.next_identifier == old(self).next_identifier,
            decreases size - i,
        {
            let entry = self.in_flight.remove(0);
            proof {
                assert(entry == all[i as int]);
                assert(all.skip(i as int)[0] == all[i as int]);
                assert(all.skip(i as int).skip(1) =~= all.skip(i + 1));
                assert(all.take(i + 1).drop_last() =~= all.take(i as int));
                assert(all.take(i + 1).last() == all[i as int]);
            }
            if entry.identifier != identifier {
                remaining.push(entry);
            } else if found.is_none() {
                found = Some(entry);
            }
            i = i + 1;
        }
        proof {
            assert(all.take(i as int) =~= all);
        }
        self.in_flight = remaining;
        let mut entry = found.unwrap();
        let ghost path = entry.lifecycle_path@;
        let result = match reply {
            Ok(output) => {
                entry.transition(MailLifecycle::Replied);
                witnesses.push(
                    TraceWitness::MailReplied {
                        plane: Plane::NexusMailKeeper,
                        identifier: identifier.0,
                    },
                );
                Ok(MessageProcessed { identifier, reply: output })
            },
            Err(error) => {
                entry.transition(MailLifecycle::Failed);
                Err(error)
            },
        };
        self.completed.push(entry);
        assert(self.completed@.drop_last() =~= old(self).completed@);
        result
    }
}

// ---- laws ----------------------------------------------------------------------------------

proof fn lemma_last_mail(entries: Seq<MailEntry>, entry: MailEntry)
    requires
        forall|i: int|
            0 <= i < entries.len() ==> (#[trigger] entries[i]).identifier != entry.identifier,
    ensures
        first_mail(entries.push(entry), entry.identifier) == Some(entry),
        without_mail(entries.push(entry), entry.identifier) == entries,
    decreases entries.len(),
{
    let all = entries.push(entry);
    if entries.len() > 0 {
        let tail = entries.skip(1);
        assert forall|i: int| 0 <= i < tail.len() implies (#[trigger] tail[i]).identifier
            != entry.identifier by {
            assert(tail[i] == entries[i + 1]);
        }
        lemma_last_mail(tail, entry);
        assert(all.skip(1) =~= tail.push(entry));
        assert(all[0] == entries[0]);
    } else {
        assert(all[0] == entry);
    }
    lemma_without_other_mail(entries, entry.identifier);
    assert(all.drop_last() =~= entries);
}

proof fn lemma_without_other_mail(entries: Seq<MailEntry>, identifier: MessageIdentifier)
    requires
        forall|i: int| 0 <= i < entries.len() ==> (#[trigger] entries[i]).identifier != identifier,
    ensures
        without_mail(entries, identifier) == entries,
    decreases entries.len(),
{
    if entries.len() > 0 {
        let rest = entries.drop_last();
        assert forall|i: int| 0 <= i < rest.len() implies (#[trigger] rest[i]).identifier
            != identifier by {
            assert(rest[i] == entries[i]);
        }
        lemma_without_other_mail(rest, identifier);
        assert(rest.push(entries.last()) =~= entries);
    } else {
        assert(without_mail(entries, identifier) =~= entries);
    }
}

/// A mail that was just accepted is found under its number; once it is settled, the
/// mails that are worked on are those from before, and the mail has been sent,
/// queued and processed before it was replied to or failed.
pub proof fn law_a_settled_mail_leaves_the_work(
    keeper: NexusMailKeeper,
    entry: MailEntry,
    input: Input,
    ended: MailLifecycle,
)
    requires
        keeper.is_numbered(),
        entry.is_mail(
            MessageIdentifier(keeper.next_identifier),
            input,
            NexusMailKeeper::working_path(),
        ),
    ensures
        first_mail(keeper.in_flight@.push(entry), entry.identifier) == Some(entry),
        without_mail(keeper.in_flight@.push(entry), entry.identifier) == keeper.in_flight@,
        entry.lifecycle_path@.push(ended) == seq![
            MailLifecycle::Sent,
            MailLifecycle::Queued,
            MailLifecycle::Processing,
            ended,
        ],
{
    lemma_last_mail(keeper.in_flight@, entry);
    assert(entry.lifecycle_path@.push(ended) =~= seq![
        MailLifecycle::Sent,
        MailLifecycle::Queued,
        MailLifecycle::Processing,
        ended,
    ]);
}

} // verus!
