//! The copy plane: the toolchain, and the builds that wait to be copied.

use crate::error::Error;
use crate::generated::{BuildRecord, CopyRecord, TargetNode};
use crate::runtime::toolchain::{ProcessToolchain, ToolCommand, ToolOutcome};
use vstd::prelude::*;

verus! {

/// Builds that wait to be copied, the oldest first.
#[derive(Clone, Debug, PartialEq, Eq)]
pub struct CopyQueue {
    pub pending: Vec<BuildRecord>,
}

impl Default for CopyQueue {
    fn default() -> (r: Self)
        ensures
            r.pending@.len() == 0,
    {
        CopyQueue { pending: Vec::new() }
    }
}

impl CopyQueue {
    /// How many builds wait.
    pub fn pending_count(&self) -> (r: usize)
        ensures
            r == self.pending@.len(),
    {
        self.pending.len()
    }

    /// Adds a build behind all others.
    pub fn enqueue(&mut self, build: BuildRecord)
        ensures
            final(self).pending@ == old(self).pending@.push(build),
    {
        self.pending.push(build);
    }

    /// Takes the build that waits longest.
    pub fn dequeue(&mut self) -> (r: Option<BuildRecord>)
        ensures
            old(self).pending@.len() == 0 ==> r is None && final(self).pending@
                == old(self).pending@,
            old(self).pending@.len() > 0 ==> r == Some(old(self).pending@[0])
                && final(self).pending@ == old(self).pending@.skip(1),
    {
        if self.pending.len() == 0 {
            None
        } else {
            let build = self.pending.remove(0);
            assert(self.pending@ =~= old(self).pending@.skip(1));
            Some(build)
        }
    }
}

/// The copy plane.
#[derive(Debug, PartialEq, Eq)]
pub struct ClosureCopier {
    pub toolchain: ProcessToolchain,
    pub queue: CopyQueue,
}

/// Asks for a copy.
#[derive(Debug, PartialEq, Eq)]
pub struct DriveCopy {
    pub build: BuildRecord,
    pub target_node: TargetNode,
}

impl ClosureCopier {
    /// A plane at rest.
    pub fn new(toolchain: ProcessToolchain) -> (r: Self)
        ensures
            r.toolchain == toolchain,
            r.queue.pending@.len() == 0,
    {
        ClosureCopier { toolchain, queue: CopyQueue { pending: Vec::new() } }
    }

    /// The toolchain.
    pub fn toolchain(&self) -> (r: &ProcessToolchain)
        ensures
            *r == self.toolchain,
    {
        &self.toolchain
    }

    /// The builds that wait.
    pub fn queue(&self) -> (r: &CopyQueue)
        ensures
            *r == self.queue,
    {
        &self.queue
    }

    /// Starts a copy: the build waits from here on.
    pub fn begin(&mut self, message: &DriveCopy) -> (r: ToolCommand)
        ensures
            r.runs(
                old(self).toolchain.mode,
                old(self).toolchain.toolchain.copy_command@,
                message.build.closure_path@ + "::"@ + message.target_node@,
            ),
            final(self).queue.pending@ == old(self).queue.pending@.push(message.build),
            final(self).toolchain == old(self).toolchain,
    {
        self.queue.enqueue(message.build.clone());
        self.toolchain.copy_invocation(&message.build, &message.target_node)
    }

    /// Ends a copy, however it went: the build that waited longest leaves.
    pub fn finish(&mut self, message: DriveCopy, outcome: ToolOutcome) -> (r: Result<
        CopyRecord,
        Error,
    >)
        ensures
            final(self).queue.pending@ == (if old(self).queue.pending@.len() == 0 {
                Seq::empty()
            } else {
                old(self).queue.pending@.skip(1)
            }),
            final(self).toolchain == old(self).toolchain,
            match outcome {
                Ok(_) => r == Ok::<CopyRecord, Error>(
                    CopyRecord {
                        generation_identifier: message.build.generation_identifier,
                        target_node: message.target_node,
                        closure_path: message.build.closure_path,
                    },
                ),
                Err(detail) => r matches Err(Error::CopyFailed(text)) && text@
                    == old(self).toolchain.toolchain.copy_command@ + ": "@ + detail@,
            },
    {
        let _ = self.queue.dequeue();
        assert(old(self).queue.pending@.len() == 0 ==> old(self).queue.pending@ =~= Seq::empty());
        self.toolchain.execute_copy(&message.build, message.target_node, outcome)
    }
}

/// A copy that is started and ended on an idle plane leaves nothing waiting.
pub proof fn law_a_finished_copy_leaves_the_queue(
    before: Seq<BuildRecord>,
    build: BuildRecord,
)
    requires
        before.len() == 0,
    ensures
        before.push(build).skip(1) == Seq::<BuildRecord>::empty(),
        before.push(build)[0] == build,
{
    assert(before.push(build).skip(1) =~= Seq::empty());
}

} // verus!
