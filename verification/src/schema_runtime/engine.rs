//! The engine of one request: the durable state it reads and writes, and the
//! deployment or test it is driving.

use crate::paths::path_join;
use crate::runtime_model::DeploymentIdentifier;
use crate::schema_runtime::configuration::RuntimeConfiguration;
use crate::schema_runtime::pipeline::DeployPipeline;
use crate::schema_runtime::store::Store;
use crate::schema_runtime::test_runs::TestPipeline;
use vstd::prelude::*;

verus! {

/// The owner request that is being served.
#[derive(Clone, Copy, Debug, PartialEq, Eq, Structural)]
pub enum MetaOperation {
    Deploy,
    Pin,
    Unpin,
    Retire,
    Test,
}

/// The engine of one request.
#[derive(Debug, PartialEq, Eq)]
pub struct SchemaRuntime {
    pub store: Store,
    pub configuration: RuntimeConfiguration,
    pub active_deploy: Option<DeployPipeline>,
    pub active_test: Option<TestPipeline>,
    pub active_operation: Option<MetaOperation>,
}

impl SchemaRuntime {
    /// The deployment that is being driven has its durable record.
    pub open spec fn is_correlated(&self) -> bool {
        self.active_deploy matches Some(pipeline) && self.store@.has_record(
            pipeline.deployment_identifier.0,
        )
    }

    /// The durable state is consistent, and the deployment that is being driven,
    /// if there is one, has its record.
    pub open spec fn is_consistent(&self) -> bool {
        self.store@.is_consistent() && (self.active_deploy is Some ==> self.is_correlated())
    }

    /// The identifier of the deployment that is being driven.
    pub open spec fn driven(&self) -> u64
        recommends
            self.active_deploy is Some,
    {
        self.active_deploy->0.deployment_identifier.0
    }

    /// An engine over `store`.
    pub fn with_store(store: Store, temporary_directory: &str) -> (r: Self)
        ensures
            r.store == store,
            r.configuration.generated_inputs_directory@ == path_join(
                temporary_directory@,
                "lojix-generated-inputs"@,
            ),
            r.active_deploy is None,
            r.active_test is None,
            r.active_operation is None,
            store@.is_consistent() ==> r.is_consistent(),
    {
        Self::with_store_and_configuration(
            store,
            RuntimeConfiguration::test_default(temporary_directory),
        )
    }

    /// An engine over `store`, run as `configuration` says.
    pub fn with_store_and_configuration(store: Store, configuration: RuntimeConfiguration) -> (r:
        Self)
        ensures
            r.store == store,
            r.configuration == configuration,
            r.active_deploy is None,
            r.active_test is None,
            r.active_operation is None,
            store@.is_consistent() ==> r.is_consistent(),
    {
        SchemaRuntime {
            store,
            configuration,
            active_deploy: None,
            active_test: None,
            active_operation: None,
        }
    }

    /// An engine over an empty state.
    pub fn new(temporary_directory: &str) -> (r: Self)
        ensures
            r.store.is_virgin(),
            r.active_deploy is None,
            r.active_test is None,
            r.active_operation is None,
            r.is_consistent(),
    {
        Self::with_store(Store::new(), temporary_directory)
    }

    /// The durable state.
    pub fn store(&self) -> (r: &Store)
        ensures
            *r == self.store,
    {
        &self.store
    }

    /// The deployment that is being driven.
    pub fn active_deployment_identifier(&self) -> (r: Option<DeploymentIdentifier>)
        ensures
            r == (match self.active_deploy {
                Some(pipeline) => Some(pipeline.deployment_identifier),
                None => None,
            }),
    {
        match &self.active_deploy {
            Some(pipeline) => Some(pipeline.deployment_identifier.clone()),
            None => None,
        }
    }
}

} // verus!
