use vstd::prelude::*;
use vstd::string::StringExecFns;

pub mod config;
pub mod errors;
pub mod lifecycle;
pub mod response;
pub mod server;

use crate::config::EasyHttpMockConfig;
use crate::errors::EasyHttpMockError;
use crate::lifecycle::{after_start, after_stop, start_check, stop_check, ServerState};
use crate::response::{MockResponse, STATUS_MAX, STATUS_MIN};
use crate::server::ServerAdapter;

verus! {

/// A mock HTTP server: a configuration, the backend built from it, and where
/// the backend stands in its not-started, started, stopped life.
pub struct EasyHttpMock<S> where S: ServerAdapter {
    config: EasyHttpMockConfig<S>,
    server: S,
    state: ServerState,
}

impl<S: ServerAdapter> EasyHttpMock<S> {
    pub closed spec fn spec_config(&self) -> &EasyHttpMockConfig<S> {
        &self.config
    }

    pub closed spec fn spec_server(&self) -> &S {
        &self.server
    }

    pub closed spec fn spec_state(&self) -> ServerState {
        self.state
    }

    /// Builds the backend from `config.server_config`; nothing is started.
    pub fn new(config: EasyHttpMockConfig<S>) -> (r: EasyHttpMock<S>)
        ensures
            r.spec_config() == config,
            r.spec_state() == ServerState::Idle,
            r.spec_server().spec_base_url() == S::spec_url_for(config.server_config),
    {
        let server = S::new(&config.server_config);
        EasyHttpMock { config, server, state: ServerState::Idle }
    }

    /// `path` appended to the override base URL if the configuration has one,
    /// else to the backend's own base URL.
    pub fn url(&self, path: &str) -> (r: String)
        ensures
            self.spec_config().base_url matches Some(base) ==> r@ == base@ + path@,
            self.spec_config().base_url is None ==> r@ == self.spec_server().spec_base_url() + path@,
    {
        match &self.config.base_url {
            Some(base) => base.clone().concat(path),
            None => self.server.base_url().concat(path),
        }
    }

    pub fn config(&self) -> (r: &EasyHttpMockConfig<S>)
        ensures
            r == self.spec_config(),
    {
        &self.config
    }

    pub fn server(&self) -> (r: &S)
        ensures
            r == self.spec_server(),
    {
        &self.server
    }

    pub fn state(&self) -> (r: ServerState)
        ensures
            r == self.spec_state(),
    {
        self.state
    }

    /// The backend, for the host program to start and stop it; its
    /// configuration and base URL are not the host program's to change.
    pub fn server_mut(&mut self) -> (r: &mut S)
        ensures
            *r == old(self).spec_server(),
    {
        &mut self.server
    }

    /// Decides whether the backend may be asked to start: only a mock that
    /// was never started may be.
    pub fn check_start(&self) -> (r: Result<(), EasyHttpMockError>)
        ensures
            r == start_check(self.spec_state()),
    {
        self.state.check_start()
    }

    /// Records how the backend's start ended and hands that outcome back.
    pub fn finish_start(&mut self, outcome: Result<(), EasyHttpMockError>) -> (r: Result<(), EasyHttpMockError>)
        requires
            start_check(old(self).spec_state()) is Ok,
        ensures
            r == outcome,
            final(self).spec_state() == after_start(outcome),
            final(self).spec_config() == old(self).spec_config(),
            final(self).spec_server() == old(self).spec_server(),
    {
        if outcome.is_ok() {
            self.state = ServerState::Running;
        }
        outcome
    }

    /// Decides whether the backend may be asked to stop: only a running
    /// mock may be; any other gets `NotRunning`.
    pub fn check_stop(&self) -> (r: Result<(), EasyHttpMockError>)
        ensures
            r == stop_check(self.spec_state()),
    {
        self.state.check_stop()
    }

    /// Records how the backend's stop ended and hands that outcome back.
    pub fn finish_stop(&mut self, outcome: Result<(), EasyHttpMockError>) -> (r: Result<(), EasyHttpMockError>)
        requires
            stop_check(old(self).spec_state()) is Ok,
        ensures
            r == outcome,
            final(self).spec_state() == after_stop(outcome),
            final(self).spec_config() == old(self).spec_config(),
            final(self).spec_server() == old(self).spec_server(),
    {
        if outcome.is_ok() {
            self.state = ServerState::Stopped;
        }
        outcome
    }

    /// A response with status `status` and a copy of `body` as its body.
    pub fn response(status: u16, body: &[u8]) -> (r: MockResponse)
        requires
            STATUS_MIN <= status <= STATUS_MAX,
        ensures
            r.spec_status() == status,
            r.spec_body() == body@,
    {
        MockResponse::new(status, body)
    }
}

} // verus!
