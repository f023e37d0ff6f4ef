use vstd::prelude::*;

verus! {

/// The lowest HTTP status code.
pub const STATUS_MIN: u16 = 100;

/// The highest HTTP status code.
pub const STATUS_MAX: u16 = 999;

/// An HTTP response as the mock hands it back: a status code and the body bytes.
#[derive(Debug, Clone, PartialEq, Eq)]
pub struct MockResponse {
    status: u16,
    body: Vec<u8>,
}

impl MockResponse {
    pub closed spec fn spec_status(&self) -> u16 {
        self.status
    }

    pub closed spec fn spec_body(&self) -> Seq<u8> {
        self.body@
    }

    /// A status code is valid when it has three digits.
    pub open spec fn wf(&self) -> bool {
        STATUS_MIN <= self.spec_status() <= STATUS_MAX
    }

    /// A response with `status` and a copy of `body`.
    pub fn new(status: u16, body: &[u8]) -> (r: Self)
        requires
            STATUS_MIN <= status <= STATUS_MAX,
        ensures
            r.spec_status() == status,
            r.spec_body() == body@,
            r.wf(),
    {
        MockResponse { status, body: vstd::slice::slice_to_vec(body) }
    }

    pub fn status(&self) -> (r: u16)
        ensures
            r == self.spec_status(),
    {
        self.status
    }

    pub fn body(&self) -> (r: &Vec<u8>)
        ensures
            r@ == self.spec_body(),
    {
        &self.body
    }
}

} // verus!
