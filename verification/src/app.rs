//! The application, and the three operations it can ask of the API.

use crate::endpoint::{url_with_segments, Endpoint, MAX_SEGMENT_CHARS};
use crate::error::AppError;
use crate::jwt::{assertion, sign, Claims};
use crate::request::{Method, Request};
use crate::time::Timestamp;
use vstd::prelude::*;
use vstd::string::StringExecFns;

verus! {

/// One installation of the application on an account, as the API describes
/// it. The URLs are taken from the API and used as they are.
#[derive(Debug)]
pub struct Installation {
    pub id: u64,
    pub access_tokens_url: String,
    pub repositories_url: String,
}

impl Clone for Installation {
    fn clone(&self) -> (copy: Self)
        ensures
            copy == *self,
    {
        Installation {
            id: self.id,
            access_tokens_url: self.access_tokens_url.clone(),
            repositories_url: self.repositories_url.clone(),
        }
    }
}

/// The credential of one installation, good until `expires_at`.
#[derive(Debug)]
pub struct AccessToken {
    pub token: String,
    pub expires_at: Timestamp,
}

impl Clone for AccessToken {
    fn clone(&self) -> (copy: Self)
        ensures
            copy == *self,
    {
        AccessToken { token: self.token.clone(), expires_at: self.expires_at }
    }
}

/// The application: where its API is, which id it has, and the key it signs
/// with.
///
/// The application is made from the text of a URL. Where that URL can be a
/// base, paths of the API can be appended to it, and the application is
/// called based; where it cannot, the application can still mint tokens,
/// which go to a URL of the installation's own.
pub struct App {
    endpoint: Option<Endpoint>,
    id: u64,
    private_key: jsonwebtoken::EncodingKey,
}

/// The path of the collection of installations, below the endpoint.
pub open spec fn installations_path() -> Seq<Seq<char>> {
    seq!["app"@, "installations"@]
}

/// The path of the installation on the repository `repo` of `owner`, below
/// the endpoint.
pub open spec fn repository_installation_path(owner: Seq<char>, repo: Seq<char>) -> Seq<Seq<char>> {
    seq!["repos"@, owner, repo, "installation"@]
}

impl App {
    /// The application's URL can be a base.
    pub closed spec fn based(&self) -> bool {
        self.endpoint is Some
    }

    /// The text of the endpoint of a based application.
    pub closed spec fn endpoint(&self) -> Seq<char> {
        self.endpoint->Some_0@
    }

    /// The id of the application.
    pub closed spec fn id(&self) -> u64 {
        self.id
    }

    /// The signing key.
    pub closed spec fn private_key(&self) -> jsonwebtoken::EncodingKey {
        self.private_key
    }

    /// The URL of the collection of installations: the endpoint with the
    /// path of the collection appended.
    pub open spec fn installations_url(&self) -> Option<Seq<char>> {
        url_with_segments(self.endpoint(), installations_path())
    }

    /// The URL of the installation on the repository `repo` of `owner`.
    pub open spec fn repository_installation_url(&self, owner: Seq<char>, repo: Seq<char>) -> Option<
        Seq<char>,
    > {
        url_with_segments(self.endpoint(), repository_installation_path(owner, repo))
    }

    /// The assertion that this application makes when the clock reads
    /// `now`: its claims for that reading, signed with its key. `None` where
    /// the key signs nothing.
    pub open spec fn assertion_at(&self, now: Timestamp) -> Option<Seq<char>> {
        assertion(Claims::issued(now, self.id()), self.private_key())
    }

    /// `request` is the one that this application sends to `url` by
    /// `method` when the clock reads `now`: where its key signs, the request
    /// that accepts the API's media type and bears the assertion made at
    /// `now`; where it does not, the signer's error.
    pub open spec fn sends(
        &self,
        request: Result<Request, AppError>,
        method: Method,
        url: Seq<char>,
        now: Timestamp,
    ) -> bool {
        match self.assertion_at(now) {
            Some(token) => request matches Ok(request) && request.targets(method, url)
                && request.bearer@ == token,
            None => request matches Err(error) && error is Jsonwebtoken,
        }
    }

    /// The application with its API at `endpoint`.
    pub fn new(endpoint: &str, id: u64, private_key: jsonwebtoken::EncodingKey) -> (app: App)
        ensures
            app.based() <==> Endpoint::base(endpoint@),
            app.based() ==> app.endpoint() == endpoint@,
            app.id() == id,
            app.private_key() == private_key,
    {
        App { endpoint: Endpoint::parse(endpoint), id, private_key }
    }

    pub fn is_based(&self) -> (b: bool)
        ensures
            b == self.based(),
    {
        self.endpoint.is_some()
    }

    /// The claims of an assertion of this application, issued when the
    /// clock reads `now`.
    pub fn claims(&self, now: i64) -> (claims: Claims)
        requires
            Claims::reckonable(now),
        ensures
            claims.iat == now - 60,
            claims.exp == now + 600,
            claims.iss == self.id(),
    {
        Claims::at(now, self.id)
    }

    /// A fresh assertion: the claims for the reading `now` of the clock,
    /// signed with the application's key.
    fn jwt(&self, now: &Timestamp) -> (token: Result<String, AppError>)
        requires
            Claims::reckonable(now.secs),
        ensures
            match token {
                Ok(token) => self.assertion_at(*now) == Some(token@),
                Err(error) => self.assertion_at(*now) is None && error is Jsonwebtoken,
            },
    {
        let claims = self.claims(now.secs);
        assert(claims == Claims::issued(*now, self.id()));
        sign(&claims, &self.private_key)
    }

    /// The request for the first page of the application's installations.
    pub fn installations(&self, now: &Timestamp) -> (request: Result<Request, AppError>)
        requires
            self.based(),
            Claims::reckonable(now.secs),
        ensures
            self.installations_url() is Some,
            self.sends(request, Method::Get, self.installations_url()->Some_0, *now),
    {
        let mut path: Vec<String> = Vec::new();
        path.push(String::from_str("app"));
        path.push(String::from_str("installations"));
        proof {
            reveal_strlit("app");
            reveal_strlit("installations");
            assert(path.deep_view() =~= installations_path());
        }
        let url = self.endpoint.as_ref().unwrap().join(&path);
        Request::bearing(Method::Get, url, self.jwt(now))
    }

    /// The request for the page at `url`, which a `Link` header has named.
    /// Every page is asked for with an assertion of its own.
    pub fn page(&self, url: String, now: &Timestamp) -> (request: Result<Request, AppError>)
        requires
            Claims::reckonable(now.secs),
        ensures
            self.sends(request, Method::Get, url@, *now),
    {
        Request::bearing(Method::Get, url, self.jwt(now))
    }

    /// The request that mints an access token for `installation`.
    pub fn access_token(&self, installation: &Installation, now: &Timestamp) -> (request: Result<
        Request,
        AppError,
    >)
        requires
            Claims::reckonable(now.secs),
        ensures
            self.sends(request, Method::Post, installation.access_tokens_url@, *now),
    {
        Request::bearing(Method::Post, installation.access_tokens_url.clone(), self.jwt(now))
    }

    /// The request for the installation that owns the repository `repo` of
    /// `owner`.
    pub fn repository_installation(&self, owner: &str, repo: &str, now: &Timestamp) -> (request:
        Result<Request, AppError>)
        requires
            self.based(),
            owner@.len() <= MAX_SEGMENT_CHARS,
            repo@.len() <= MAX_SEGMENT_CHARS,
            Claims::reckonable(now.secs),
        ensures
            self.repository_installation_url(owner@, repo@) is Some,
            self.sends(
                request,
                Method::Get,
                self.repository_installation_url(owner@, repo@)->Some_0,
                *now,
            ),
    {
        let mut path: Vec<String> = Vec::new();
        path.push(String::from_str("repos"));
        path.push(owner.to_owned());
        path.push(repo.to_owned());
        path.push(String::from_str("installation"));
        proof {
            reveal_strlit("repos");
            reveal_strlit("installation");
            assert(path.deep_view() =~= repository_installation_path(owner@, repo@));
        }
        let url = self.endpoint.as_ref().unwrap().join(&path);
        Request::bearing(Method::Get, url, self.jwt(now))
    }
}

} // verus!
