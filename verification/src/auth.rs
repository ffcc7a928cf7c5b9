//! Tokens from the Azure CLI, and the cache that keeps one until shortly before it
//! expires.
//!
//! Asking the CLI for a token is the caller's work: it is handed in as a closure,
//! and the functions here decide when to call it and what to keep of its answer.
use vstd::prelude::*;
use crate::json::opt_string_view;
use crate::text::copy_opt_or;

verus! {

/// The resource that Fabric API tokens are requested for.
pub const FABRIC_RESOURCE: &'static str = "https://analysis.windows.net/powerbi/api";

/// Seconds before expiry at which a cached token stops being served.
pub const EXPIRY_MARGIN_SECS: u64 = 60;

/// A token as `az account get-access-token` reports it.
pub struct AzToken {
    pub access_token: String,
    /// Legacy local-time date string, kept for display only.
    pub expires_on: String,
    /// Unix epoch seconds: the canonical expiry.
    pub expires_on_epoch: Option<i64>,
    pub tenant: Option<String>,
    pub subscription: Option<String>,
}

/// What `nb auth status` reports.
pub struct AuthStatus {
    pub tenant: String,
    pub subscription: String,
    pub token_valid: bool,
    pub expires_on: String,
}

struct CachedToken {
    token: String,
    expires_at: u64,
}

/// The token cache: empty, or one token with its expiry (Unix seconds).
pub struct TokenCache {
    cached: Option<CachedToken>,
}

/// Model of a cache entry: the token and its expiry.
pub type CacheView = Option<(Seq<char>, u64)>;

impl TokenCache {
    pub closed spec fn view(&self) -> CacheView {
        match self.cached {
            Some(c) => Some((c.token@, c.expires_at)),
            None => None,
        }
    }

    /// An empty cache.
    pub fn new() -> (r: TokenCache)
        ensures
            r@ is None,
    {
        TokenCache { cached: None }
    }

    /// The cached token, if it is still valid `EXPIRY_MARGIN_SECS` after `now`.
    pub fn fresh_token(&self, now: u64) -> (r: Option<String>)
        requires
            now + EXPIRY_MARGIN_SECS <= u64::MAX,
        ensures
            opt_string_view(r) == cache_lookup(self@, now as int),
    {
        match &self.cached {
            Some(c) => {
                if now + EXPIRY_MARGIN_SECS < c.expires_at {
                    Some(c.token.clone())
                } else {
                    None
                }
            },
            None => None,
        }
    }

    /// Keeps a token from the CLI with its expiry, replacing what was cached.
    pub fn store(&mut self, az: &AzToken) -> (r: String)
        ensures
            r@ == az.access_token@,
            final(self)@ == cache_entry(az.access_token@, az.expires_on_epoch),
    {
        let expires_at = token_expiry_epoch(az);
        let token = az.access_token.clone();
        self.cached = Some(CachedToken { token: token.clone(), expires_at });
        token
    }
}

/// The expiry that is used for caching: the epoch seconds when present and positive,
/// else 0 (which makes the next call refresh).
pub open spec fn expiry_spec(epoch: Option<i64>) -> u64 {
    match epoch {
        Some(e) => if e > 0 {
            e as u64
        } else {
            0
        },
        None => 0,
    }
}

/// The cache entry kept for a token.
pub open spec fn cache_entry(token: Seq<char>, epoch: Option<i64>) -> CacheView {
    Some((token, expiry_spec(epoch)))
}

/// A lookup at time `now`: the token, if it expires more than `EXPIRY_MARGIN_SECS`
/// after `now`.
pub open spec fn cache_lookup(c: CacheView, now: int) -> Option<Seq<char>> {
    match c {
        Some((t, exp)) => if now + EXPIRY_MARGIN_SECS < exp {
            Some(t)
        } else {
            None
        },
        None => None,
    }
}

/// Resolves token expiry to Unix epoch seconds; 0 when absent or not positive.
pub fn token_expiry_epoch(token: &AzToken) -> (r: u64)
    ensures
        r == expiry_spec(token.expires_on_epoch),
{
    match token.expires_on_epoch {
        Some(e) => if e > 0 {
            e as u64
        } else {
            0
        },
        None => 0,
    }
}

/// What `get_cached_token` returns and keeps, given the cache before the call and,
/// when the cache could not serve, what the token source answered.
pub open spec fn cached_token_outcome<E>(
    before: CacheView,
    now: int,
    answer: Result<AzToken, E>,
    result: Result<String, E>,
    after: CacheView,
) -> bool {
    match answer {
        Ok(az) => {
            &&& result matches Ok(t) && t@ == az.access_token@
            &&& after == cache_entry(az.access_token@, az.expires_on_epoch)
        },
        Err(e) => result == Err::<String, E>(e) && after == before,
    }
}

/// Returns the cached token while it is fresh, without calling `fetch` (whose
/// precondition is owed only when the cache cannot serve); otherwise asks `fetch` for
/// a token for `resource`, caches it and returns it. A failed fetch leaves the cache
/// as it was.
pub fn get_cached_token<F, E>(cache: &mut TokenCache, now: u64, resource: &str, fetch: F) -> (r:
    Result<String, E>) where F: FnOnce(&str) -> Result<AzToken, E>
    requires
        now + EXPIRY_MARGIN_SECS <= u64::MAX,
        cache_lookup(old(cache)@, now as int) is None ==> call_requires(fetch, (resource,)),
    ensures
        cache_lookup(old(cache)@, now as int) matches Some(t) ==> (r matches Ok(s) && s@ == t
            && final(cache)@ == old(cache)@),
        cache_lookup(old(cache)@, now as int) is None ==> exists|answer: Result<AzToken, E>|
            call_ensures(fetch, (resource,), answer) && #[trigger] cached_token_outcome(
                old(cache)@,
                now as int,
                answer,
                r,
                final(cache)@,
            ),
{
    if let Some(t) = cache.fresh_token(now) {
        return Ok(t);
    }
    let answer = fetch(resource);
    match answer {
        Ok(az) => {
            let t = cache.store(&az);
            proof {
                assert(cached_token_outcome(old(cache)@, now as int, Ok(az), Ok::<String, E>(t), cache@));
            }
            Ok(t)
        },
        Err(e) => {
            proof {
                assert(cached_token_outcome(old(cache)@, now as int, Err::<AzToken, E>(e), Err::<String, E>(e), cache@));
            }
            Err(e)
        },
    }
}

/// A Fabric API token: the cached one while fresh, without calling `fetch`; otherwise
/// fetched for `FABRIC_RESOURCE`.
pub fn get_fabric_token<F, E>(cache: &mut TokenCache, now: u64, fetch: F) -> (r: Result<
    String,
    E,
>) where F: FnOnce(&str) -> Result<AzToken, E>
    requires
        now + EXPIRY_MARGIN_SECS <= u64::MAX,
        cache_lookup(old(cache)@, now as int) is None ==> forall|res: &str|
            res@ == FABRIC_RESOURCE@ ==> call_requires(fetch, (res,)),
    ensures
        cache_lookup(old(cache)@, now as int) matches Some(t) ==> (r matches Ok(s) && s@ == t
            && final(cache)@ == old(cache)@),
        cache_lookup(old(cache)@, now as int) is None ==> exists|res: &str, answer: Result<AzToken, E>|
            res@ == FABRIC_RESOURCE@ && #[trigger] call_ensures(fetch, (res,), answer) && cached_token_outcome(
                old(cache)@,
                now as int,
                answer,
                r,
                final(cache)@,
            ),
{
    get_cached_token(cache, now, FABRIC_RESOURCE, fetch)
}

/// The status report for a token at time `now`.
pub open spec fn status_spec(az: AzToken, now: int, s: AuthStatus) -> bool {
    &&& s.tenant@ == (match az.tenant {
        Some(t) => t@,
        None => "unknown"@,
    })
    &&& s.subscription@ == (match az.subscription {
        Some(t) => t@,
        None => "unknown"@,
    })
    &&& s.token_valid == (expiry_spec(az.expires_on_epoch) > now)
    &&& s.expires_on@ == az.expires_on@
}

/// Builds the status report for a token: tenant and subscription ("unknown" when
/// absent), whether it is still valid at `now`, and its display expiry.
pub fn auth_status(az: AzToken, now: u64) -> (r: AuthStatus)
    ensures
        status_spec(az, now as int, r),
{
    let expiry = token_expiry_epoch(&az);
    AuthStatus {
        tenant: copy_opt_or(&az.tenant, "unknown"),
        subscription: copy_opt_or(&az.subscription, "unknown"),
        token_valid: expiry > now,
        expires_on: az.expires_on,
    }
}

/// Checks auth status without caching: fetches a token for `FABRIC_RESOURCE` and
/// reports on it, or passes the fetch error on.
pub fn check_auth_status<F, E>(now: u64, fetch: F) -> (r: Result<AuthStatus, E>) where
    F: FnOnce(&str) -> Result<AzToken, E>,

    requires
        forall|res: &str| res@ == FABRIC_RESOURCE@ ==> call_requires(fetch, (res,)),
    ensures
        exists|res: &str, answer: Result<AzToken, E>|
            res@ == FABRIC_RESOURCE@ && #[trigger] call_ensures(fetch, (res,), answer) && match answer {
                Ok(az) => r matches Ok(s) && status_spec(az, now as int, s),
                Err(e) => r == Err::<AuthStatus, E>(e),
            },
{
    match fetch(FABRIC_RESOURCE) {
        Ok(az) => Ok(auth_status(az, now)),
        Err(e) => Err(e),
    }
}

// ---------------------------------------------------------------------------
// Laws
// ---------------------------------------------------------------------------

/// A freshly stored token is served exactly while `now + 60` is before its expiry.
pub proof fn law_stored_token_served_until_margin(token: Seq<char>, epoch: Option<i64>, now: int)
    ensures
        cache_lookup(cache_entry(token, epoch), now) == (if now + 60 < expiry_spec(epoch) {
            Some(token)
        } else {
            None
        }),
{
}

/// A token without a positive epoch expiry is never served from the cache, so the
/// next call refreshes.
pub proof fn law_no_expiry_forces_refresh(token: Seq<char>, epoch: Option<i64>, now: int)
    requires
        now >= 0,
        match epoch {
            Some(e) => e <= 0,
            None => true,
        },
    ensures
        cache_lookup(cache_entry(token, epoch), now) is None,
{
}

/// An empty cache never serves a token.
pub proof fn law_empty_cache_serves_nothing(now: int)
    ensures
        cache_lookup(None, now) is None,
{
}

/// After a call that fetched a token, later calls are served that token exactly while
/// the clock reads more than 60 seconds before its expiry; otherwise they fetch again.
pub proof fn law_fetched_token_served_until_margin<E>(
    before: CacheView,
    now: int,
    az: AzToken,
    result: Result<String, E>,
    after: CacheView,
    later: int,
)
    requires
        cached_token_outcome(before, now, Ok(az), result, after),
    ensures
        result matches Ok(t) && t@ == az.access_token@,
        cache_lookup(after, later) == (if later + EXPIRY_MARGIN_SECS < expiry_spec(
            az.expires_on_epoch,
        ) {
            Some(az.access_token@)
        } else {
            None
        }),
{
}

/// After a call that fetched a token without a positive epoch expiry, no later call is
/// served from the cache, whatever the clock reads: the next call fetches again.
pub proof fn law_fetched_token_without_expiry_is_not_reused<E>(
    before: CacheView,
    now: int,
    az: AzToken,
    result: Result<String, E>,
    after: CacheView,
    later: int,
)
    requires
        cached_token_outcome(before, now, Ok(az), result, after),
        match az.expires_on_epoch {
            Some(e) => e <= 0,
            None => true,
        },
        later >= 0,
    ensures
        cache_lookup(after, later) is None,
{
}

} // verus!
