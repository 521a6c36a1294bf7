//! What the engine is configured with.

use crate::paths::{join_path, path_join};
use crate::runtime_model::{
    ClusterName, DeploymentOutputSelector, FlakeAttribute, FlakeReference, NixSystem, NodeName,
    ProposalSource, TestMode,
};
use crate::schema_runtime::test_runs::TestDefaults;
use vstd::prelude::*;

verus! {

/// Test defaults as the startup configuration writes them.
#[derive(Debug, PartialEq, Eq)]
pub struct ConfiguredTestDefaults {
    pub cluster: String,
    pub default_vm_host: String,
    pub default_mode: TestMode,
    pub test_flake: String,
    pub test_nix_system: String,
    pub test_output_selector: String,
    pub proposal_source: String,
}

/// The part of the startup configuration that the engine reads.
#[derive(Debug, PartialEq, Eq)]
pub struct DaemonConfiguration {
    pub state_directory_path: String,
    pub daemon_host: String,
    pub test_defaults: Option<ConfiguredTestDefaults>,
}

/// Where external programs are found: under a directory, or by the search path.
#[derive(Debug, PartialEq, Eq)]
pub struct EffectExecution {
    pub program_directory: Option<String>,
}

impl EffectExecution {
    /// Programs are found by the search path.
    pub fn production() -> (r: Self)
        ensures
            r.program_directory is None,
    {
        EffectExecution { program_directory: None }
    }

    /// Programs are found under `program_directory`.
    pub fn test(program_directory: String) -> (r: Self)
        ensures
            r.program_directory == Some(program_directory),
    {
        EffectExecution { program_directory: Some(program_directory) }
    }

    /// The path or name that `program` is started by.
    pub fn program(&self, program: &str) -> (r: String)
        ensures
            r@ == (match self.program_directory {
                Some(directory) => path_join(directory@, program@),
                None => program@,
            }),
    {
        match &self.program_directory {
            Some(directory) => join_path(directory.as_str(), program),
            None => program.to_owned(),
        }
    }
}

/// What the engine is configured with.
#[derive(Debug, PartialEq, Eq)]
pub struct RuntimeConfiguration {
    pub generated_inputs_directory: String,
    pub daemon_host: NodeName,
    pub effect_execution: EffectExecution,
    pub test_defaults: Option<TestDefaults>,
}

impl TestDefaults {
    /// The defaults that `configured` writes.
    pub open spec fn is_configured_by(&self, configured: ConfiguredTestDefaults) -> bool {
        &&& self.cluster.0 == configured.cluster
        &&& self.default_vm_host.0 == configured.default_vm_host
        &&& self.default_mode == configured.default_mode
        &&& self.test_flake.0 == configured.test_flake
        &&& self.test_nix_system.0 == configured.test_nix_system
        &&& self.test_output_selector.0.0 == configured.test_output_selector
        &&& self.proposal_source.0 == configured.proposal_source
    }

    /// Takes the defaults from the startup configuration.
    pub fn from_configuration(configured: &ConfiguredTestDefaults) -> (r: Self)
        ensures
            r.is_configured_by(*configured),
    {
        TestDefaults {
            cluster: ClusterName(configured.cluster.clone()),
            default_vm_host: NodeName(configured.default_vm_host.clone()),
            default_mode: configured.default_mode,
            test_flake: FlakeReference(configured.test_flake.clone()),
            test_nix_system: NixSystem(configured.test_nix_system.clone()),
            test_output_selector: DeploymentOutputSelector(
                FlakeAttribute(configured.test_output_selector.clone()),
            ),
            proposal_source: ProposalSource(configured.proposal_source.clone()),
        }
    }
}

impl RuntimeConfiguration {
    /// Takes what the engine needs from the startup configuration. Generated
    /// inputs stand in a directory of their own below the state directory.
    pub fn from_daemon_configuration(configuration: &DaemonConfiguration) -> (r: Self)
        ensures
            r.generated_inputs_directory@ == path_join(
                configuration.state_directory_path@,
                "generated-inputs"@,
            ),
            r.daemon_host.0 == configuration.daemon_host,
            r.effect_execution.program_directory is None,
            match (r.test_defaults, configuration.test_defaults) {
                (Some(defaults), Some(configured)) => defaults.is_configured_by(configured),
                (None, None) => true,
                _ => false,
            },
    {
        RuntimeConfiguration {
            generated_inputs_directory: join_path(
                configuration.state_directory_path.as_str(),
                "generated-inputs",
            ),
            daemon_host: NodeName(configuration.daemon_host.clone()),
            effect_execution: EffectExecution::production(),
            test_defaults: match &configuration.test_defaults {
                Some(configured) => Some(TestDefaults::from_configuration(configured)),
                None => None,
            },
        }
    }

    /// A configuration with synthetic defaults, whose generated inputs stand
    /// under `temporary_directory`.
    pub fn test_default(temporary_directory: &str) -> (r: Self)
        ensures
            r.generated_inputs_directory@ == path_join(
                temporary_directory@,
                "lojix-generated-inputs"@,
            ),
            r.daemon_host@ == "daemon-host"@,
            r.effect_execution.program_directory is None,
            r.test_defaults matches Some(defaults) && defaults.is_synthetic(),
    {
        RuntimeConfiguration {
            generated_inputs_directory: join_path(temporary_directory, "lojix-generated-inputs"),
            daemon_host: NodeName("daemon-host".to_owned()),
            effect_execution: EffectExecution::production(),
            test_defaults: Some(TestDefaults::test_default()),
        }
    }

    /// A configuration with synthetic defaults, whose programs are found under
    /// `program_directory`.
    pub fn test_with_effect_program_directory(
        generated_inputs_directory: String,
        program_directory: String,
    ) -> (r: Self)
        ensures
            r.generated_inputs_directory == generated_inputs_directory,
            r.daemon_host@ == "daemon-host"@,
            r.effect_execution.program_directory == Some(program_directory),
            r.test_defaults matches Some(defaults) && defaults.is_synthetic(),
    {
        RuntimeConfiguration {
            generated_inputs_directory,
            daemon_host: NodeName("daemon-host".to_owned()),
            effect_execution: EffectExecution::test(program_directory),
            test_defaults: Some(TestDefaults::test_default()),
        }
    }

    /// The node that the daemon runs on.
    pub fn daemon_host(&self) -> (r: &NodeName)
        ensures
            *r == self.daemon_host,
    {
        &self.daemon_host
    }

    /// How external programs are started.
    pub fn effect_execution(&self) -> (r: &EffectExecution)
        ensures
            *r == self.effect_execution,
    {
        &self.effect_execution
    }
}

} // verus!
