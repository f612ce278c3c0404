//! Authentication of a backend process as a GitHub App.
//!
//! The crate holds the decisions of the authenticated-request pipeline: the
//! claims of the signed assertion, the requests of the three REST operations,
//! the classification of a response, the following of `Link` headers across
//! pages, and the cache of installation access tokens. Reading the clock,
//! sending a request and waiting for its response are left to the caller.

pub mod app;
pub mod cache;
pub mod endpoint;
pub mod error;
pub mod header;
pub mod jwt;
pub mod pagination;
pub mod request;
pub mod status;
pub mod time;

pub use app::{AccessToken, App, Installation};
pub use cache::{Cache, Step};
pub use endpoint::Endpoint;
pub use error::rest_api::{ApiError, ErrorCode, ErrorObject, Payload};
pub use error::{AppError, Rejection};
pub use header::HeaderValue;
pub use jwt::Claims;
pub use pagination::Pagination;
pub use request::{Method, Request};
pub use status::StatusCode;
pub use time::Timestamp;
