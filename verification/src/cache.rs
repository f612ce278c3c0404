//! The cache of installation access tokens.

use crate::app::{AccessToken, App, Installation};
use crate::error::AppError;
use crate::request::{Method, Request};
use crate::jwt::Claims;
use crate::time::Timestamp;
use std::collections::HashMap;
use vstd::prelude::*;
use vstd::std_specs::hash::*;

verus! {

/// What is to be done for a caller who asks for a token.
#[derive(Debug)]
pub enum Step {
    /// The cached token has more than the renewal margin left: it is the
    /// answer, and nothing is sent.
    Cached(AccessToken),
    /// There is no token for the installation, or the one there is about to
    /// expire: this request mints one, and `Cache::settle` takes what comes
    /// of it.
    Mint(Request),
}

/// The access tokens of the installations asked for so far, one for each,
/// and the application that mints them.
///
/// An entry comes into being with the first token minted for an
/// installation and is overwritten by each later one; none is ever removed.
/// The cache keeps no lock of its own: whoever shares it holds it behind
/// one mutex from the call of `access_token` to the call of `settle`, so
/// that of two callers who find the same token expiring only one mints.
pub struct Cache {
    app: App,
    tokens: HashMap<u64, AccessToken>,
}

impl View for Cache {
    type V = Map<u64, AccessToken>;

    /// The token of each installation that has one, by the installation's id.
    closed spec fn view(&self) -> Map<u64, AccessToken> {
        self.tokens@
    }
}

/// The token that the cache `tokens` has for the installation `id` and
/// that need not be renewed at `now`: the one stored, unless it expires
/// less than the renewal margin after `now`.
pub open spec fn usable(tokens: Map<u64, AccessToken>, id: u64, now: Timestamp) -> Option<
    AccessToken,
> {
    if tokens.contains_key(id) && !tokens[id].expires_at.expiring(now) {
        Some(tokens[id])
    } else {
        None
    }
}

/// The cache after a mint for the installation `id` has ended with
/// `minted`: a token takes the place of whatever was stored for `id`, a
/// failure leaves everything as it was.
pub open spec fn settled(tokens: Map<u64, AccessToken>, id: u64, minted: Result<
    AccessToken,
    AppError,
>) -> Map<u64, AccessToken> {
    match minted {
        Ok(token) => tokens.insert(id, token),
        Err(_) => tokens,
    }
}

/// `step` is what is due to a caller who asks the cache `tokens` for a
/// token of `installation` when the clock reads `now`, where `assertion` is
/// what the application's key signs at that reading: the usable token
/// where there is one; else the request that mints one and bears the
/// assertion; and the signer's error where there is neither.
pub open spec fn due(
    step: Result<Step, AppError>,
    tokens: Map<u64, AccessToken>,
    installation: Installation,
    now: Timestamp,
    assertion: Option<Seq<char>>,
) -> bool {
    match usable(tokens, installation.id, now) {
        Some(token) => step == Ok::<Step, AppError>(Step::Cached(token)),
        None => match assertion {
            Some(bearer) => {
                &&& step matches Ok(Step::Mint(request))
                &&& request.targets(Method::Post, installation.access_tokens_url@)
                &&& request.bearer@ == bearer
            },
            None => step matches Err(error) && error is Jsonwebtoken,
        },
    }
}

impl Cache {
    /// The application that the tokens are minted for.
    pub closed spec fn owner(&self) -> App {
        self.app
    }

    /// An empty cache for the tokens of `app`.
    pub fn new(app: App) -> (cache: Cache)
        ensures
            cache@ == Map::<u64, AccessToken>::empty(),
            cache.owner() == app,
    {
        Cache { app, tokens: HashMap::new() }
    }

    pub fn app(&self) -> (app: &App)
        ensures
            *app == self.owner(),
    {
        &self.app
    }

    /// The token for `installation` that can be handed out when the clock
    /// reads `now`, if the cache has one.
    pub fn lookup(&self, installation: &Installation, now: &Timestamp) -> (token: Option<
        AccessToken,
    >)
        ensures
            token == usable(self@, installation.id, *now),
    {
        broadcast use group_hash_axioms;

        match self.tokens.get(&installation.id) {
            Some(token) => if token.expires_at.is_expiring(now) {
                None
            } else {
                Some(token.clone())
            },
            None => None,
        }
    }

    /// Decides how a caller gets a token for `installation` when the clock
    /// reads `now`: from the cache, or by the mint request that is returned,
    /// which bears an assertion made at `now`. The cache itself is not
    /// changed, and no assertion is signed for a token that is handed out.
    pub fn access_token(&self, installation: &Installation, now: &Timestamp) -> (step: Result<
        Step,
        AppError,
    >)
        requires
            Claims::reckonable(now.secs),
        ensures
            due(step, self@, *installation, *now, self.owner().assertion_at(*now)),
    {
        match self.lookup(installation, now) {
            Some(token) => Ok(Step::Cached(token)),
            None => match self.app.access_token(installation, now) {
                Ok(request) => Ok(Step::Mint(request)),
                Err(error) => Err(error),
            },
        }
    }

    /// Takes the outcome of a mint for `installation`. A token is stored in
    /// place of whatever the cache had for the installation, and a copy is
    /// handed back; an error is handed back as it is, and the cache stays as
    /// it was.
    pub fn settle(&mut self, installation: &Installation, minted: Result<AccessToken, AppError>) -> (token:
        Result<AccessToken, AppError>)
        ensures
            final(self)@ == settled(old(self)@, installation.id, minted),
            final(self).owner() == old(self).owner(),
            token == minted,
    {
        broadcast use group_hash_axioms;

        match minted {
            Ok(token) => {
                let copy = token.clone();
                self.tokens.insert(installation.id, token);
                Ok(copy)
            },
            Err(error) => Err(error),
        }
    }
}

/// A token that has just been minted and stored is handed out again to the
/// next caller, as it is and without another mint, for as long as it has the
/// renewal margin left.
pub proof fn lemma_reuse(
    tokens: Map<u64, AccessToken>,
    installation: Installation,
    token: AccessToken,
    now: Timestamp,
    assertion: Option<Seq<char>>,
    step: Result<Step, AppError>,
)
    requires
        !token.expires_at.expiring(now),
        due(step, settled(tokens, installation.id, Ok(token)), installation, now, assertion),
    ensures
        usable(settled(tokens, installation.id, Ok(token)), installation.id, now) == Some(token),
        step == Ok::<Step, AppError>(Step::Cached(token)),
{
}

/// A token with less than a minute left is not handed out, though it has
/// not expired yet: the caller is sent to mint. Once the renewed token is
/// stored, it is the entry, and it is the one handed out while it lasts.
pub proof fn lemma_proactive_renewal(
    tokens: Map<u64, AccessToken>,
    installation: Installation,
    now: Timestamp,
    assertion: Option<Seq<char>>,
    step: Result<Step, AppError>,
    renewed: AccessToken,
)
    requires
        tokens.contains_key(installation.id),
        now.before(tokens[installation.id].expires_at),
        tokens[installation.id].expires_at.secs < now.secs + 60,
        due(step, tokens, installation, now, assertion),
    ensures
        usable(tokens, installation.id, now) is None,
        !(step matches Ok(Step::Cached(_))),
        assertion is Some ==> step matches Ok(Step::Mint(_)),
        settled(tokens, installation.id, Ok(renewed))[installation.id] == renewed,
        !renewed.expires_at.expiring(now) ==> usable(
            settled(tokens, installation.id, Ok(renewed)),
            installation.id,
            now,
        ) == Some(renewed),
{
}

/// A token with more than a minute left is handed out as it is stored:
/// that is the whole step, and nothing is minted.
pub proof fn lemma_no_renewal(
    tokens: Map<u64, AccessToken>,
    installation: Installation,
    now: Timestamp,
    assertion: Option<Seq<char>>,
    step: Result<Step, AppError>,
)
    requires
        tokens.contains_key(installation.id),
        tokens[installation.id].expires_at.secs > now.secs + 60,
        due(step, tokens, installation, now, assertion),
    ensures
        usable(tokens, installation.id, now) == Some(tokens[installation.id]),
        step == Ok::<Step, AppError>(Step::Cached(tokens[installation.id])),
{
}

/// A mint that fails leaves no entry behind: an installation that had none
/// has none afterwards, so that the next caller is sent to mint again,
/// whatever the clock reads then; and one that had a token keeps it.
pub proof fn lemma_failed_mint(
    tokens: Map<u64, AccessToken>,
    installation: Installation,
    error: AppError,
    now: Timestamp,
    assertion: Option<Seq<char>>,
    step: Result<Step, AppError>,
)
    requires
        due(step, settled(tokens, installation.id, Err(error)), installation, now, assertion),
    ensures
        settled(tokens, installation.id, Err(error)) == tokens,
        !tokens.contains_key(installation.id) ==> !(step matches Ok(Step::Cached(_))),
        !tokens.contains_key(installation.id) && assertion is Some ==> step matches Ok(
            Step::Mint(_),
        ),
{
}

/// A token that is handed out is the one stored, and it has the renewal
/// margin left at the reading of the clock at which it was looked up.
pub proof fn lemma_cached_has_margin(
    tokens: Map<u64, AccessToken>,
    installation: Installation,
    now: Timestamp,
    assertion: Option<Seq<char>>,
    token: AccessToken,
)
    requires
        due(Ok(Step::Cached(token)), tokens, installation, now, assertion),
    ensures
        tokens.contains_key(installation.id),
        tokens[installation.id] == token,
        token.expires_at.secs >= now.secs + 60,
{
}

/// Of two renewals for one installation the later one is what the cache
/// holds, as if the earlier had not been.
pub proof fn lemma_last_renewal_wins(
    tokens: Map<u64, AccessToken>,
    id: u64,
    earlier: AccessToken,
    later: AccessToken,
)
    ensures
        settled(settled(tokens, id, Ok(earlier)), id, Ok(later)) == settled(tokens, id, Ok(later)),
        settled(settled(tokens, id, Ok(earlier)), id, Ok(later))[id] == later,
{
    assert(tokens.insert(id, earlier).insert(id, later) =~= tokens.insert(id, later));
}

/// No entry is ever removed: an installation that has a token has one after
/// every mint, whomever it was for and however it ended.
pub proof fn lemma_never_evicted(
    tokens: Map<u64, AccessToken>,
    id: u64,
    other: u64,
    minted: Result<AccessToken, AppError>,
)
    requires
        tokens.contains_key(other),
    ensures
        settled(tokens, id, minted).contains_key(other),
{
}

/// A mint for one installation leaves the tokens of all others alone.
pub proof fn lemma_other_installations(
    tokens: Map<u64, AccessToken>,
    id: u64,
    other: u64,
    minted: Result<AccessToken, AppError>,
    now: Timestamp,
)
    requires
        id != other,
    ensures
        usable(settled(tokens, id, minted), other, now) == usable(tokens, other, now),
{
}

} // verus!
