//! Where the workflow engine is and which features are on.
use vstd::prelude::*;

verus! {

/// Address of the engine's REST API when none is configured.
pub const DEFAULT_API_URL: &'static str = "http://localhost:5678/api/v1";

/// Seconds that one request to the workflow engine may take.
pub const REQUEST_TIMEOUT_SECS: u64 = 300;

/// Settings of a client: the engine's base URL, the key sent with every
/// request, and two feature switches.
#[derive(Debug, Clone)]
pub struct N8nConfig {
    pub api_url: String,
    pub api_key: String,
    pub enable_workflow_creation: bool,
    pub enable_execution_tracking: bool,
}

impl N8nConfig {
    /// The settings made from what the environment supplies: a missing URL
    /// falls back to `DEFAULT_API_URL`, a missing key to the empty key, and
    /// both features are on.
    pub fn from_settings(api_url: Option<String>, api_key: Option<String>) -> (r: N8nConfig)
        ensures
            r.api_url@ == (match api_url {
                Some(u) => u@,
                None => DEFAULT_API_URL@,
            }),
            r.api_key@ == (match api_key {
                Some(k) => k@,
                None => Seq::<char>::empty(),
            }),
            r.enable_workflow_creation,
            r.enable_execution_tracking,
    {
        let url = match api_url {
            Some(u) => u,
            None => String::from_str(DEFAULT_API_URL),
        };
        let key = match api_key {
            Some(k) => k,
            None => String::new(),
        };
        N8nConfig {
            api_url: url,
            api_key: key,
            enable_workflow_creation: true,
            enable_execution_tracking: true,
        }
    }
}

impl Default for N8nConfig {
    fn default() -> (r: N8nConfig)
        ensures
            r.api_url@ == DEFAULT_API_URL@,
            r.api_key@ == Seq::<char>::empty(),
            r.enable_workflow_creation,
            r.enable_execution_tracking,
    {
        N8nConfig::from_settings(None, None)
    }
}

} // verus!
