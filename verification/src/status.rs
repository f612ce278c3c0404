//! HTTP status codes, as far as the classification of a response reads them.

use vstd::prelude::*;

verus! {

/// What `reqwest::StatusCode` displays for the status code with this number:
/// the number, a space, and the canonical reason phrase of the code or a
/// placeholder where it has none.
pub uninterp spec fn status_text(code: u16) -> Seq<char>;

/// The three-digit status of an HTTP response.
#[derive(Clone, Copy, Debug)]
pub struct StatusCode {
    code: u16,
}

impl StatusCode {
    #[verifier::type_invariant]
    spec fn in_range(self) -> bool {
        Self::valid(self.code)
    }

    /// The numbers that stand for a status: 100 to 999.
    pub open spec fn valid(code: u16) -> bool {
        100 <= code < 1000
    }

    /// The number of this status.
    pub closed spec fn code(self) -> u16 {
        self.code
    }

    /// The status lies in 200..=299.
    pub open spec fn success(self) -> bool {
        200 <= self.code() < 300
    }

    /// The status with the number `code`, where there is one.
    pub fn from_u16(code: u16) -> (status: Option<StatusCode>)
        ensures
            status is Some <==> Self::valid(code),
            status is Some ==> status->Some_0.code() == code,
    {
        if 100 <= code && code < 1000 {
            Some(StatusCode { code })
        } else {
            None
        }
    }

    pub fn as_u16(&self) -> (code: u16)
        ensures
            code == self.code(),
            Self::valid(code),
    {
        proof {
            use_type_invariant(self);
        }
        self.code
    }

    pub fn is_success(&self) -> (b: bool)
        ensures
            b == self.success(),
    {
        200 <= self.code && self.code < 300
    }

    /// The status as it is displayed, for example `404 Not Found`.
    pub fn to_string(&self) -> (text: String)
        ensures
            text@ == status_text(self.code()),
    {
        proof {
            use_type_invariant(self);
        }
        display_status(self.code)
    }
}

/// Builds the `reqwest::StatusCode` with the number `code` by
/// `StatusCode::from_u16`, which accepts 100 to 999, and returns what its
/// `Display` impl writes.
#[verifier::external_body]
fn display_status(code: u16) -> (text: String)
    requires
        100 <= code < 1000,
    ensures
        text@ == status_text(code),
{
    reqwest::StatusCode::from_u16(code).unwrap().to_string()
}

} // verus!
