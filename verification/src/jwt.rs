//! The signed assertion that proves to the API which application is calling.

use crate::error::AppError;
use vstd::prelude::*;

verus! {

/// `jsonwebtoken::EncodingKey`: the private key, of which nothing is read
/// here. It is handed to the signer as it was given.
#[verifier::external_type_specification]
#[verifier::external_body]
pub struct ExEncodingKey(jsonwebtoken::EncodingKey);

/// Seconds by which an assertion is dated back, to allow for a clock that
/// runs ahead of the server's.
pub const BACKDATE_SECS: i64 = 60;

/// Seconds for which an assertion is valid, counted from the clock reading.
pub const LIFETIME_SECS: i64 = 600;

/// The claims of an assertion, in seconds since the Unix epoch.
#[derive(Clone, Copy, Debug, PartialEq, Eq, Structural)]
pub struct Claims {
    /// Issued at.
    pub iat: i64,
    /// Expires at.
    pub exp: i64,
    /// The id of the application that issues the assertion.
    pub iss: u64,
}

impl Claims {
    /// A clock reading from which both ends of the validity window can be
    /// reckoned in an `i64`.
    pub open spec fn reckonable(now: i64) -> bool {
        i64::MIN + BACKDATE_SECS <= now <= i64::MAX - LIFETIME_SECS
    }

    /// The claims of the application `issuer` when the clock reads `now`.
    pub fn at(now: i64, issuer: u64) -> (claims: Claims)
        requires
            Self::reckonable(now),
        ensures
            claims.iat == now - 60,
            claims.exp == now + 600,
            claims.iss == issuer,
    {
        Claims { iat: now - BACKDATE_SECS, exp: now + LIFETIME_SECS, iss: issuer }
    }
}

/// What the caller of a signing gets: the token as it is, or the signer's
/// error as the error of the operation.
pub fn signed(token: Result<String, jsonwebtoken::errors::Error>) -> (signed: Result<
    String,
    AppError,
>)
    ensures
        match token {
            Ok(token) => signed == Ok::<String, AppError>(token),
            Err(error) => signed == Err::<String, AppError>(AppError::Jsonwebtoken(error)),
        },
{
    match token {
        Ok(token) => Ok(token),
        Err(error) => Err(AppError::Jsonwebtoken(error)),
    }
}

/// Signs `claims` with `key`: the token that this key makes of these claims,
/// or the signer's error where the key makes none.
pub fn sign(claims: &Claims, key: &jsonwebtoken::EncodingKey) -> (token: Result<String, AppError>)
    ensures
        match token {
            Ok(token) => assertion(*claims, *key) == Some(token@),
            Err(error) => assertion(*claims, *key) is None && error is Jsonwebtoken,
        },
{
    signed(encode_rs256(claims, key))
}

/// Calls `jsonwebtoken::encode` with a header for RS256 and with the claims
/// as a JSON object of the members `iat`, `exp` and `iss`, in that order.
///
/// The claim is that the outcome is a matter of the claims and the key
/// alone. `encode` compares the key's family with the algorithm's, writes
/// header and claims as JSON in base64, and has ring sign the two; for
/// RS256 that is PKCS#1 v1.5, whose padding takes nothing from the random
/// source it is handed, and ring's RSA signing does no blinding. Which keys
/// make a token, and what the token is, is not said here.
#[verifier::external_body]
fn encode_rs256(claims: &Claims, key: &jsonwebtoken::EncodingKey) -> (token: Result<
    String,
    jsonwebtoken::errors::Error,
>)
    ensures
        token is Ok <==> token_of(claims.iat, claims.exp, claims.iss, *key) is Some,
        token is Ok ==> token_of(claims.iat, claims.exp, claims.iss, *key) == Some(token->Ok_0@),
{
    let mut payload = serde_json::Map::new();
    payload.insert("iat".to_owned(), claims.iat.into());
    payload.insert("exp".to_owned(), claims.exp.into());
    payload.insert("iss".to_owned(), claims.iss.into());
    let header = jsonwebtoken::Header::new(jsonwebtoken::Algorithm::RS256);
    jsonwebtoken::encode(&header, &payload, key)
}

impl Claims {
    /// The claims that `issuer` makes when the clock reads `now`: issued a
    /// minute before, expiring ten minutes after.
    pub open spec fn issued(now: crate::time::Timestamp, issuer: u64) -> Claims {
        Claims { iat: (now.secs - 60) as i64, exp: (now.secs + 600) as i64, iss: issuer }
    }

    /// Whether both ends of the validity window can be reckoned from `now`.
    pub fn is_reckonable(now: i64) -> (b: bool)
        ensures
            b == Self::reckonable(now),
    {
        i64::MIN + BACKDATE_SECS <= now && now <= i64::MAX - LIFETIME_SECS
    }
}

/// The token that `jsonwebtoken::encode` makes of these three claims under
/// a header for RS256 with `key`; `None` where it returns an error, as it
/// does for a key that is no RSA key.
pub uninterp spec fn token_of(iat: i64, exp: i64, iss: u64, key: jsonwebtoken::EncodingKey) -> Option<
    Seq<char>,
>;

/// The assertion of `claims` that `key` signs, if it signs one.
pub open spec fn assertion(claims: Claims, key: jsonwebtoken::EncodingKey) -> Option<Seq<char>> {
    token_of(claims.iat, claims.exp, claims.iss, key)
}

} // verus!
