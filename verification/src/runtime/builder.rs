//! The build plane: the toolchain, and the source that is being built.

use crate::error::Error;
use crate::generated::{BuildRecord, GenerationIdentifier, SourceRecord};
use crate::runtime::toolchain::{ProcessToolchain, ToolCommand, ToolOutcome};
use vstd::prelude::*;

verus! {

/// The build plane.
#[derive(Debug, PartialEq, Eq)]
pub struct Builder {
    pub toolchain: ProcessToolchain,
    pub in_flight: Option<SourceRecord>,
}

/// Asks for a build.
#[derive(Debug, PartialEq, Eq)]
pub struct DriveBuild {
    pub source: SourceRecord,
    pub generation: GenerationIdentifier,
}

impl Builder {
    /// A plane at rest.
    pub fn new(toolchain: ProcessToolchain) -> (r: Self)
        ensures
            r.toolchain == toolchain,
            r.in_flight is None,
    {
        Builder { toolchain, in_flight: None }
    }

    /// The toolchain.
    pub fn toolchain(&self) -> (r: &ProcessToolchain)
        ensures
            *r == self.toolchain,
    {
        &self.toolchain
    }

    /// The source that is being built.
    pub fn in_flight(&self) -> (r: Option<&SourceRecord>)
        ensures
            match (r, self.in_flight) {
                (Some(source), Some(expected)) => *source == expected,
                (None, None) => true,
                _ => false,
            },
    {
        match &self.in_flight {
            Some(source) => Some(source),
            None => None,
        }
    }

    /// Starts a build: the source is in flight from here on.
    pub fn begin(&mut self, message: &DriveBuild) -> (r: ToolCommand)
        ensures
            r.runs(
                old(self).toolchain.mode,
                old(self).toolchain.toolchain.build_command@,
                message.source.horizon_view@,
            ),
            final(self).in_flight == Some(message.source),
            final(self).toolchain == old(self).toolchain,
    {
        self.in_flight = Some(message.source.clone());
        self.toolchain.build_invocation(&message.source.horizon_view)
    }

    /// Ends a build, however it went.
    pub fn finish(&mut self, message: &DriveBuild, outcome: ToolOutcome) -> (r: Result<
        BuildRecord,
        Error,
    >)
        ensures
            final(self).in_flight is None,
            final(self).toolchain == old(self).toolchain,
            match outcome {
                Ok((closure_path, log)) => r matches Ok(build) && build.generation_identifier
                    == message.generation && build.closure_path.0 == closure_path
                    && build.build_log.0 == log,
                Err(detail) => r matches Err(Error::BuildFailed(text)) && text@
                    == old(self).toolchain.toolchain.build_command@ + ": "@ + detail@,
            },
    {
        self.in_flight = None;
        self.toolchain.execute_build(message.generation, outcome)
    }
}

} // verus!
