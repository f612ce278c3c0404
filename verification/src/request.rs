//! A request to the API, ready to be sent.

use crate::error::AppError;
use vstd::prelude::*;
use vstd::string::StringExecFns;

verus! {

/// The media type that every request accepts.
pub open spec fn accept_text() -> Seq<char> {
    "application/vnd.github.v3+json"@
}

#[derive(Clone, Copy, Debug, PartialEq, Eq, Structural)]
pub enum Method {
    Get,
    Post,
}

/// What is to be sent: the method, the URL, the value of the `Accept`
/// header, and the assertion that goes into the `Authorization` header as a
/// bearer token.
#[derive(Debug)]
pub struct Request {
    pub method: Method,
    pub url: String,
    pub accept: String,
    pub bearer: String,
}

impl Request {
    /// The request goes to `url` by `method` and accepts the API's media type.
    pub open spec fn targets(self, method: Method, url: Seq<char>) -> bool {
        self.method == method && self.url@ == url && self.accept@ == accept_text()
    }

    /// The request to `url` with `bearer` as its assertion, or the error
    /// that stands in its place.
    pub fn bearing(method: Method, url: String, bearer: Result<String, AppError>) -> (request:
        Result<Request, AppError>)
        ensures
            match bearer {
                Ok(token) => request matches Ok(request) && request.targets(method, url@)
                    && request.bearer == token,
                Err(error) => request == Err::<Request, AppError>(error),
            },
    {
        match bearer {
            Ok(token) => Ok(
                Request {
                    method,
                    url,
                    accept: String::from_str("application/vnd.github.v3+json"),
                    bearer: token,
                },
            ),
            Err(error) => Err(error),
        }
    }
}

} // verus!
