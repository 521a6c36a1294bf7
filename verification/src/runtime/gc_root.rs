//! The pinning plane: the toolchain, and the generations that are pinned.

use crate::generated::{BuildRecord, GenerationIdentifier};
use crate::runtime::toolchain::ProcessToolchain;
use std::collections::BTreeSet;
use vstd::prelude::*;

verus! {

/// The generations that are pinned.
#[derive(Debug, PartialEq, Eq)]
pub struct PinnedSet {
    pub pinned: BTreeSet<u64>,
}

impl Default for PinnedSet {
    fn default() -> (r: Self)
        ensures
            r.pinned@ == Set::<u64>::empty(),
    {
        PinnedSet { pinned: BTreeSet::new() }
    }
}

impl PinnedSet {
    /// Whether a generation is pinned.
    pub fn contains(&self, identifier: &GenerationIdentifier) -> (r: bool)
        ensures
            r == self.pinned@.contains(identifier.0),
    {
        self.pinned.contains(&identifier.0)
    }

    /// Pins a generation; whether it was not pinned before.
    pub fn insert(&mut self, identifier: &GenerationIdentifier) -> (r: bool)
        ensures
            final(self).pinned@ == old(self).pinned@.insert(identifier.0),
            r == !old(self).pinned@.contains(identifier.0),
    {
        self.pinned.insert(identifier.0)
    }

    /// How many generations are pinned.
    pub fn len(&self) -> (r: usize)
        ensures
            r == self.pinned@.len(),
    {
        self.pinned.len()
    }

    /// Whether no generation is pinned.
    pub fn is_empty(&self) -> (r: bool)
        ensures
            r == (self.pinned@.len() == 0),
    {
        self.pinned.len() == 0
    }
}

/// The pinning plane.
#[derive(Debug, PartialEq, Eq)]
pub struct GcRootPinner {
    pub toolchain: ProcessToolchain,
    pub pinned: PinnedSet,
}

/// Asks to pin a build.
#[derive(Debug, PartialEq, Eq)]
pub struct DrivePin(pub BuildRecord);

impl GcRootPinner {
    /// A plane that pins nothing.
    pub fn new(toolchain: ProcessToolchain) -> (r: Self)
        ensures
            r.toolchain == toolchain,
            r.pinned.pinned@ == Set::<u64>::empty(),
    {
        GcRootPinner { toolchain, pinned: PinnedSet { pinned: BTreeSet::new() } }
    }

    /// The toolchain.
    pub fn toolchain(&self) -> (r: &ProcessToolchain)
        ensures
            *r == self.toolchain,
    {
        &self.toolchain
    }

    /// The generations that are pinned.
    pub fn pinned(&self) -> (r: &PinnedSet)
        ensures
            *r == self.pinned,
    {
        &self.pinned
    }

    /// Pins a build.
    pub fn pin(&mut self, message: &DrivePin) -> (r: GenerationIdentifier)
        ensures
            r == message.0.generation_identifier,
            final(self).pinned.pinned@ == old(self).pinned.pinned@.insert(r.0),
            final(self).toolchain == old(self).toolchain,
    {
        let identifier = self.toolchain.execute_pin(&message.0);
        let _ = self.pinned.insert(&identifier);
        identifier
    }
}

} // verus!
