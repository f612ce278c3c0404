//! Everything that can go wrong between a request and its typed result.

pub mod rest_api;

use crate::status::StatusCode;
use vstd::prelude::*;

verus! {

/// `hyper::Error`, as the parser of `Link` headers returns it. It is carried
/// to the caller; nothing is known here of what it holds.
#[verifier::external_type_specification]
#[verifier::external_body]
pub struct ExHyperError(hyper::Error);

/// `jsonwebtoken::errors::Error`, as the signer returns it; carried likewise.
#[verifier::external_type_specification]
#[verifier::external_body]
pub struct ExJsonwebtokenError(jsonwebtoken::errors::Error);

/// `reqwest::Error`, which only the caller's transport makes; carried
/// likewise.
#[verifier::external_type_specification]
#[verifier::external_body]
pub struct ExReqwestError(reqwest::Error);

/// `reqwest::header::ToStrError`, as `HeaderValue::to_str` returns it;
/// carried likewise.
#[verifier::external_type_specification]
#[verifier::external_body]
pub struct ExToStrError(reqwest::header::ToStrError);

/// `url::ParseError`, as `Url::parse` returns it; carried likewise.
#[verifier::external_type_specification]
#[verifier::external_body]
pub struct ExUrlParseError(url::ParseError);

/// The failures of an operation. None is retried: each ends the operation it
/// came up in and reaches the caller as it is.
#[derive(Debug)]
pub enum AppError {
    /// The API answered with a non-success status.
    RestApi(rest_api::ApiError),
    /// A `Link` header does not follow the grammar of link values.
    Hyper(hyper::Error),
    /// The assertion could not be signed.
    Jsonwebtoken(jsonwebtoken::errors::Error),
    /// The transport failed, or a body could not be read or decoded.
    Reqwest(reqwest::Error),
    /// A `Link` header holds bytes outside visible ASCII.
    ReqwestHeaderToStr(reqwest::header::ToStrError),
    /// The target of a `next` link is no URL.
    UrlParse(url::ParseError),
}

/// A response whose status is no success, before its body has been read.
#[derive(Debug)]
pub struct Rejection {
    status: StatusCode,
}

impl Rejection {
    #[verifier::type_invariant]
    spec fn refused(self) -> bool {
        !self.status.success()
    }

    /// The status of the response.
    pub closed spec fn status(self) -> StatusCode {
        self.status
    }

    /// The error that the response stands for, now that its body is read:
    /// `text` is the body, and `payload` the body decoded as an error body,
    /// where it is one.
    pub fn classify(self, text: String, payload: Option<rest_api::Payload>) -> (error: AppError)
        ensures
            !self.status().success(),
            error == AppError::RestApi(rest_api::ApiError::classified(self.status(), text, payload)),
    {
        proof {
            use_type_invariant(&self);
        }
        AppError::RestApi(rest_api::ApiError::from_body(self.status, text, payload))
    }
}

impl AppError {
    /// Classifies a response by its status, before anything is decoded from
    /// its body: a success status lets the operation go on with the
    /// response as it is; any other ends it, and the body is to be read for
    /// the error that it stands for.
    pub fn check_rest_api_response(status: StatusCode) -> (checked: Result<(), Rejection>)
        ensures
            match checked {
                Ok(_) => status.success(),
                Err(rejection) => !status.success() && rejection.status() == status,
            },
    {
        if status.is_success() {
            Ok(())
        } else {
            Err(Rejection { status })
        }
    }
}

} // verus!
