//! What the endpoints are configured with.

use vstd::prelude::*;

verus! {

/// The configuration that every request reads and none changes.
#[derive(Debug, PartialEq, Eq)]
pub struct AppState {
    pub api_key: String,
}

/// The key that is sent upstream where none was configured.
pub open spec fn placeholder_api_key() -> Seq<char> {
    "YourApiKeyToken"@
}

impl AppState {
    /// The state for a configured key; without one, the placeholder
    /// stands in for it.
    pub fn new(configured: Option<String>) -> (state: AppState)
        ensures
            state.api_key@ == match configured {
                Some(key) => key@,
                None => placeholder_api_key(),
            },
    {
        match configured {
            Some(key) => AppState { api_key: key },
            None => AppState { api_key: String::from_str("YourApiKeyToken") },
        }
    }
}

impl Clone for AppState {
    fn clone(&self) -> (copy: Self)
        ensures
            copy.api_key@ == self.api_key@,
    {
        AppState { api_key: self.api_key.clone() }
    }
}

} // verus!
