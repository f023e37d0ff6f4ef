use vstd::prelude::*;

pub mod adapters;

verus! {

/// The lowest port that `PortGenerator::random_port` hands out.
pub const RANDOM_PORT_LOW: u16 = 9000;

/// One past the highest port that `PortGenerator::random_port` hands out.
pub const RANDOM_PORT_HIGH: u16 = 65535;

/// A pluggable server backend: built from its configuration, it reports the
/// base URL at which it serves. Starting and stopping it is asynchronous work
/// that the host program performs.
pub trait ServerAdapter: Sized {
    type Config: Clone;

    /// The base URL that `base_url` returns, as characters.
    spec fn spec_base_url(&self) -> Seq<char>;

    /// The base URL of a backend built from `config`.
    spec fn spec_url_for(config: Self::Config) -> Seq<char>;

    /// Builds a backend, not yet listening, from `config`.
    fn new(config: &Self::Config) -> (r: Self)
        ensures
            r.spec_base_url() == Self::spec_url_for(*config),
    ;

    fn base_url(&self) -> (r: String)
        ensures
            r@ == self.spec_base_url(),
    ;
}

/// Builds the base URL at which a backend of type `S` would serve.
pub trait BaseUrlGenerator<S> where S: ServerAdapter, S::Config: Clone {
    /// The URL that `gen_url` returns, as characters.
    spec fn spec_gen_url(&self) -> Seq<char>;

    fn gen_url(&self) -> (r: String)
        ensures
            r@ == self.spec_gen_url(),
    ;
}

/// Draws a random listening port for a backend of type `S`.
pub trait PortGenerator<S> where S: ServerAdapter, S::Config: Clone, Self: Sized {
    /// A pseudo-random port in `[RANDOM_PORT_LOW, RANDOM_PORT_HIGH)`; it may be taken.
    fn random_port() -> (r: u16)
        ensures
            RANDOM_PORT_LOW <= r < RANDOM_PORT_HIGH,
    {
        random_u16_in(RANDOM_PORT_LOW, RANDOM_PORT_HIGH)
    }

    /// The port that this value would have the backend listen on.
    spec fn spec_port(&self) -> u16;

    /// The same value with its port replaced by a random pick.
    fn with_random_port(self) -> (r: Self)
        ensures
            RANDOM_PORT_LOW <= r.spec_port() < RANDOM_PORT_HIGH,
    ;
}

/// Relies on rand::random_range: a value drawn from the half-open range
/// `lo..hi`, which panics only when the range is empty.
#[verifier::external_body]
fn random_u16_in(lo: u16, hi: u16) -> (r: u16)
    requires
        lo < hi,
    ensures
        lo <= r < hi,
{
    rand::random_range(lo..hi)
}

} // verus!
