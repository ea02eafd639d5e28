use vstd::prelude::*;
use crate::record::opt_text;

verus! {

/// Seconds taken off a token's lifetime so that it is renewed before the
/// catalog stops accepting it.
pub const EXPIRY_MARGIN_SECONDS: i64 = 60;

/// The status with which the catalog rejects a credential.
pub const STATUS_UNAUTHORIZED: u16 = 401;

/// Why a request to the catalog failed.
#[derive(Debug)]
pub enum CatalogError {
    /// The token exchange could not be carried out or its answer not read.
    Credential(String),
    /// The token endpoint answered with a status other than success.
    CredentialStatus(u16),
    /// The catalog could not be reached or its answer not read.
    Transport(String),
    /// The catalog rejected the token; the cache was invalidated.
    AuthExpired,
    /// The catalog answered with another status than success.
    Upstream { status: u16, body: String },
    /// The answer did not have the expected shape; the raw body is kept.
    Decode { cause: String, raw_body: String },
}

/// The answer of the token endpoint.
#[derive(Clone, Debug)]
pub struct TwitchTokenResponse {
    pub access_token: String,
    pub expires_in: i64,
    pub token_type: String,
}

/// The shared bearer token and the instant (seconds since the Unix epoch)
/// from which it must no longer be used. Both are read and written as one
/// value.
#[derive(Clone, Debug)]
pub struct CredentialCache {
    pub token: Option<String>,
    pub expiry: i64,
}

pub open spec fn is_success(status: u16) -> bool {
    200 <= status <= 299
}

/// The expiry of a token issued at `issued_at` that lives `expires_in` seconds.
pub open spec fn expiry_of(issued_at: int, expires_in: int) -> int {
    issued_at + expires_in - EXPIRY_MARGIN_SECONDS
}

/// The token that the cache serves at `now`: the cached one while it has not
/// expired, none otherwise.
pub open spec fn served_token(cache: CredentialCache, now: int) -> Option<Seq<char>> {
    if now < cache.expiry && cache.token is Some {
        Some(cache.token->Some_0@)
    } else {
        None
    }
}

impl CredentialCache {
    /// An empty cache, expired since the epoch.
    pub fn new() -> (r: CredentialCache)
        ensures
            r.token is None,
            r.expiry == 0,
    {
        CredentialCache { token: None, expiry: 0 }
    }

    /// The cached token if it is still valid at `now`; `None` means that a
    /// refresh is due.
    pub fn cached_token(&self, now: i64) -> (r: Option<String>)
        ensures
            opt_text(r) == served_token(*self, now as int),
    {
        if now < self.expiry {
            match &self.token {
                Some(t) => Some(t.clone()),
                None => None,
            }
        } else {
            None
        }
    }

    /// Stores a token obtained at `issued_at` and returns it. It stays in use
    /// until its lifetime, less the safety margin, has passed.
    pub fn store(&mut self, response: TwitchTokenResponse, issued_at: i64) -> (r: String)
        requires
            i64::MIN <= expiry_of(issued_at as int, response.expires_in as int) <= i64::MAX,
        ensures
            r@ == response.access_token@,
            final(self).token matches Some(t) && t@ == r@,
            final(self).expiry == expiry_of(issued_at as int, response.expires_in as int),
    {
        let token = response.access_token;
        let returned = token.clone();
        self.token = Some(token);
        let expiry: i128 = issued_at as i128 + response.expires_in as i128 - EXPIRY_MARGIN_SECONDS as i128;
        self.expiry = expiry as i64;
        returned
    }

    /// Forces the next lookup to refresh: the expiry goes back to the epoch.
    pub fn invalidate(&mut self)
        ensures
            final(self).expiry == 0,
            final(self).token == old(self).token,
    {
        self.expiry = 0;
    }

    /// Reads the status of a catalog answer. A rejected token invalidates the
    /// cache and fails with `AuthExpired`, without a retry; another failure
    /// status fails with the status and body; success hands the body on for
    /// decoding.
    pub fn check_catalog_response(&mut self, status: u16, body: String) -> (r: Result<
        String,
        CatalogError,
    >)
        ensures
            status == STATUS_UNAUTHORIZED ==> (r matches Err(CatalogError::AuthExpired)),
            status == STATUS_UNAUTHORIZED ==> final(self).expiry == 0,
            final(self).token == old(self).token,
            status != STATUS_UNAUTHORIZED && !is_success(status) ==> *final(self) == *old(self) && (r
                matches Err(CatalogError::Upstream { status: s, body: b }) && s == status && b@
                == body@),
            status != STATUS_UNAUTHORIZED && is_success(status) ==> *final(self) == *old(self) && (r
                matches Ok(b) && b@ == body@),
    {
        if status == STATUS_UNAUTHORIZED {
            self.invalidate();
            Err(CatalogError::AuthExpired)
        } else if !(200 <= status && status <= 299) {
            Err(CatalogError::Upstream { status, body })
        } else {
            Ok(body)
        }
    }
}

/// Reads the status of the token endpoint's answer.
pub fn check_token_response(status: u16) -> (r: Result<(), CatalogError>)
    ensures
        is_success(status) <==> r is Ok,
        !is_success(status) ==> (r matches Err(CatalogError::CredentialStatus(s)) && s == status),
{
    if 200 <= status && status <= 299 {
        Ok(())
    } else {
        Err(CatalogError::CredentialStatus(status))
    }
}

/// The address of a catalog endpoint.
pub fn catalog_url(base_url: &str, endpoint: &str) -> (r: String)
    ensures
        r@ == base_url@ + "/"@ + endpoint@,
{
    let mut r = String::from_str(base_url);
    r.append("/");
    r.append(endpoint);
    r
}

/// The value of the authorization header that carries a token.
pub fn bearer_header(token: &str) -> (r: String)
    ensures
        r@ == "Bearer "@ + token@,
{
    let mut r = String::from_str("Bearer ");
    r.append(token);
    r
}

/// A token served by the cache is always the one stored by a single refresh,
/// together with that refresh's expiry: right after storing, the cache serves
/// the new token exactly until its expiry, and after an invalidation it
/// serves nothing.
pub proof fn lemma_served_token_is_from_one_refresh(
    after: CredentialCache,
    token: Seq<char>,
    issued_at: int,
    expires_in: int,
    now: int,
)
    requires
        after.token matches Some(t) && t@ == token,
        after.expiry == expiry_of(issued_at, expires_in),
    ensures
        now < expiry_of(issued_at, expires_in) ==> served_token(after, now) == Some(token),
        now >= expiry_of(issued_at, expires_in) ==> served_token(after, now) is None,
        served_token(CredentialCache { token: after.token, expiry: 0 }, now) is Some ==> now < 0,
{
}

} // verus!
