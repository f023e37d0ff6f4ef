use vstd::prelude::*;

use crate::server::ServerAdapter;

verus! {

/// What a mock is built from: the backend's own settings, and a base URL
/// that, when present, is used in place of the one the backend reports.
pub struct EasyHttpMockConfig<S> where S: ServerAdapter {
    pub server_config: S::Config,
    pub base_url: Option<String>,
}

impl<S: ServerAdapter> EasyHttpMockConfig<S> {
    pub fn new(server_config: S::Config, base_url: Option<String>) -> (r: Self)
        ensures
            r.server_config == server_config,
            r.base_url == base_url,
    {
        EasyHttpMockConfig { server_config, base_url }
    }
}

} // verus!
