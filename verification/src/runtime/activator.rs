//! The activation plane: the toolchain, and the generation activated last.

use crate::error::Error;
use crate::generated::{ActivationKind, ActivationRecord, CopyRecord};
use crate::runtime::toolchain::{kind_text, ProcessToolchain, ToolCommand, ToolOutcome};
use vstd::prelude::*;

verus! {

/// The generation activated last.
#[derive(Debug, PartialEq, Eq)]
pub struct ActiveGeneration {
    pub record: Option<ActivationRecord>,
}

impl Default for ActiveGeneration {
    fn default() -> (r: Self)
        ensures
            r.record is None,
    {
        ActiveGeneration { record: None }
    }
}

impl ActiveGeneration {
    /// Another generation was activated.
    pub fn set(&mut self, record: ActivationRecord)
        ensures
            final(self).record == Some(record),
    {
        self.record = Some(record);
    }

    /// The generation activated last.
    pub fn current(&self) -> (r: Option<&ActivationRecord>)
        ensures
            match (r, self.record) {
                (Some(record), Some(expected)) => *record == expected,
                (None, None) => true,
                _ => false,
            },
    {
        match &self.record {
            Some(record) => Some(record),
            None => None,
        }
    }
}

/// The activation plane.
#[derive(Debug, PartialEq, Eq)]
pub struct Activator {
    pub toolchain: ProcessToolchain,
    pub active: ActiveGeneration,
}

/// Asks for an activation.
#[derive(Debug, PartialEq, Eq)]
pub struct DriveActivation {
    pub copy: CopyRecord,
    pub activation_kind: ActivationKind,
}

impl Activator {
    /// A plane that has activated nothing.
    pub fn new(toolchain: ProcessToolchain) -> (r: Self)
        ensures
            r.toolchain == toolchain,
            r.active.record is None,
    {
        Activator { toolchain, active: ActiveGeneration { record: None } }
    }

    /// The toolchain.
    pub fn toolchain(&self) -> (r: &ProcessToolchain)
        ensures
            *r == self.toolchain,
    {
        &self.toolchain
    }

    /// The generation activated last.
    pub fn active(&self) -> (r: &ActiveGeneration)
        ensures
            *r == self.active,
    {
        &self.active
    }

    /// Starts an activation.
    pub fn begin(&self, message: &DriveActivation) -> (r: ToolCommand)
        ensures
            r.runs(
                self.toolchain.mode,
                self.toolchain.toolchain.activation_command@,
                message.copy.closure_path@ + "::"@ + message.copy.target_node@ + "::"@
                    + kind_text(message.activation_kind),
            ),
    {
        self.toolchain.activation_invocation(&message.copy, message.activation_kind)
    }

    /// Ends an activation: a generation is active only once it has succeeded.
    pub fn finish(&mut self, message: &DriveActivation, outcome: ToolOutcome) -> (r: Result<
        ActivationRecord,
        Error,
    >)
        ensures
            match outcome {
                Ok(_) => {
                    let record = ActivationRecord {
                        generation_identifier: message.copy.generation_identifier,
                        target_node: message.copy.target_node,
                        activation_kind: message.activation_kind,
                    };
                    &&& r == Ok::<ActivationRecord, Error>(record)
                    &&& final(self).active.record == Some(record)
                },
                Err(detail) => {
                    &&& r matches Err(Error::ActivationFailed(text)) && text@
                        == old(self).toolchain.toolchain.activation_command@ + ": "@ + detail@
                    &&& final(self).active == old(self).active
                },
            },
            final(self).toolchain == old(self).toolchain,
    {
        match self.toolchain.execute_activation(&message.copy, message.activation_kind, outcome) {
            Ok(record) => {
                self.active.set(record.clone());
                Ok(record)
            },
            Err(error) => Err(error),
        }
    }
}

} // verus!
