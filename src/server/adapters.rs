use vstd::prelude::*;
use vstd::string::StringExecFns;

use crate::server::{BaseUrlGenerator, PortGenerator, ServerAdapter};

verus! {

/// The decimal digit `d`, for `d < 10`.
pub open spec fn digit_char(d: nat) -> char {
    seq!['0', '1', '2', '3', '4', '5', '6', '7', '8', '9'][d as int]
}

/// The decimal numeral of `n`, without sign or leading zeros.
pub open spec fn decimal(n: nat) -> Seq<char>
    decreases n,
{
    if n < 10 {
        seq![digit_char(n)]
    } else {
        decimal(n / 10).push(digit_char(n % 10))
    }
}

/// The base URL of a server listening on the loopback interface at `port`.
pub open spec fn loopback_url(port: u16) -> Seq<char> {
    "http://127.0.0.1:"@ + decimal(port as nat)
}

/// Relies on u16's `to_string` (its `Display`): the decimal numeral of `n`.
#[verifier::external_body]
fn port_text(n: u16) -> (r: String)
    ensures
        r@ == decimal(n as nat),
{
    n.to_string()
}

/// Settings of a backend that serves on the loopback interface.
#[derive(Debug, Clone, Copy, PartialEq, Eq, Structural)]
pub struct LoopbackConfig {
    pub port: u16,
}

impl LoopbackConfig {
    pub fn new(port: u16) -> (r: Self)
        ensures
            r.port == port,
    {
        LoopbackConfig { port }
    }
}

impl BaseUrlGenerator<LoopbackAdapter> for LoopbackConfig {
    open spec fn spec_gen_url(&self) -> Seq<char> {
        loopback_url(self.port)
    }

    fn gen_url(&self) -> (r: String) {
        String::from_str("http://127.0.0.1:").concat(port_text(self.port).as_str())
    }
}

impl PortGenerator<LoopbackAdapter> for LoopbackConfig {
    open spec fn spec_port(&self) -> u16 {
        self.port
    }

    fn with_random_port(self) -> (r: Self) {
        LoopbackConfig { port: Self::random_port() }
    }
}

/// A backend on the loopback interface, served by the host program.
pub struct LoopbackAdapter {
    pub config: LoopbackConfig,
}

impl ServerAdapter for LoopbackAdapter {
    type Config = LoopbackConfig;

    open spec fn spec_base_url(&self) -> Seq<char> {
        loopback_url(self.config.port)
    }

    open spec fn spec_url_for(config: LoopbackConfig) -> Seq<char> {
        loopback_url(config.port)
    }

    fn new(config: &LoopbackConfig) -> (r: Self) {
        LoopbackAdapter { config: *config }
    }

    fn base_url(&self) -> (r: String) {
        self.config.gen_url()
    }
}

} // verus!
