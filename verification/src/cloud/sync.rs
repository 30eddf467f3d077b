//! What is asked of the service, and what its answer means.

use crate::cloud::CloudConfig;
use crate::error::{TensileError, TensileResult};
use crate::text::labelled;
use vstd::prelude::*;

verus! {

/// Synchronises with the service of a configuration.
#[derive(Debug)]
pub struct CloudSync {
    config: CloudConfig,
}

impl CloudSync {
    pub closed spec fn spec_config(&self) -> CloudConfig {
        self.config
    }

    pub fn new(config: CloudConfig) -> (sync: CloudSync)
        ensures
            sync.spec_config() == config,
    {
        CloudSync { config }
    }

    pub fn config(&self) -> (config: &CloudConfig)
        ensures
            *config == self.spec_config(),
    {
        &self.config
    }

    /// The address to which the snapshot is pushed.
    pub fn push_url(&self) -> (url: String)
        ensures
            url@ == self.spec_config().api_url@ + "/sync/push"@,
    {
        labelled(self.config.api_url.as_str(), "/sync/push")
    }

    /// The address from which the snapshot is pulled.
    pub fn pull_url(&self) -> (url: String)
        ensures
            url@ == self.spec_config().api_url@ + "/sync/pull"@,
    {
        labelled(self.config.api_url.as_str(), "/sync/pull")
    }

    /// Judges an answer of the service: one that does not tell of success is
    /// an error that shows the status.
    pub fn check_status(success: bool, status: &str) -> (outcome: TensileResult<()>)
        ensures
            outcome is Ok <==> success,
            outcome matches Err(error) ==> (error matches TensileError::Unknown(m) && m@
                == "Cloud sync failed: "@ + status@),
    {
        if success {
            Ok(())
        } else {
            Err(TensileError::Unknown(labelled("Cloud sync failed: ", status)))
        }
    }
}

} // verus!
