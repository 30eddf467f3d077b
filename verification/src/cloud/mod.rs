//! Where and as whom the snapshot is synchronised.

pub mod sync;

pub use sync::CloudSync;

use crate::error::{TensileError, TensileResult};
use vstd::prelude::*;
use vstd::string::StringExecFns;

verus! {

/// The service, the token that opens it and the user it is for.
#[derive(Debug)]
pub struct CloudConfig {
    pub api_url: String,
    pub api_token: String,
    pub user_id: String,
}

/// What the settings make: a configuration where the token and the user are
/// set, with the address of the public service where none is set; else a
/// validation error that names the first setting that is missing.
pub open spec fn config_outcome(
    api_url: Option<String>,
    api_token: Option<String>,
    user_id: Option<String>,
    outcome: TensileResult<CloudConfig>,
) -> bool {
    match (api_token, user_id) {
        (None, _) => outcome matches Err(TensileError::Validation(m)) && m@
            == "TENSILE_CLOUD_TOKEN not set"@,
        (Some(_), None) => outcome matches Err(TensileError::Validation(m)) && m@
            == "TENSILE_USER_ID not set"@,
        (Some(token), Some(user)) => {
            &&& outcome matches Ok(config)
            &&& config.api_token == token
            &&& config.user_id == user
            &&& config.api_url@ == match api_url {
                Some(url) => url@,
                None => "https://api.tensile.dev"@,
            }
        },
    }
}

impl CloudConfig {
    /// Makes the configuration from the three settings, each as it was found
    /// set or not.
    pub fn from_settings(
        api_url: Option<String>,
        api_token: Option<String>,
        user_id: Option<String>,
    ) -> (outcome: TensileResult<CloudConfig>)
        ensures
            config_outcome(api_url, api_token, user_id, outcome),
    {
        let api_url = match api_url {
            Some(url) => url,
            None => String::from_str("https://api.tensile.dev"),
        };
        let api_token = match api_token {
            Some(token) => token,
            None => {
                return Err(
                    TensileError::Validation(String::from_str("TENSILE_CLOUD_TOKEN not set")),
                );
            },
        };
        let user_id = match user_id {
            Some(user) => user,
            None => {
                return Err(TensileError::Validation(String::from_str("TENSILE_USER_ID not set")));
            },
        };
        Ok(CloudConfig { api_url, api_token, user_id })
    }
}

} // verus!
