//! The token file of the password login service: an access token, a
//! refresh token and when the access token expires.

use vstd::prelude::*;

verus! {

/// A token as the login service answers it: a lifetime in seconds.
#[derive(Clone, Debug, PartialEq)]
pub struct TokenResponse {
    pub access_token: String,
    pub refresh_token: String,
    pub expires_in: u64,
}

/// A token as it is stored: an expiry time in Unix seconds.
#[derive(Clone, Debug, PartialEq)]
pub struct TokenStore {
    pub access_token: String,
    pub refresh_token: String,
    pub expires_at: u64,
}

/// Seconds before expiry from which the access token is refreshed.
pub const REFRESH_MARGIN_SECS: u64 = 60;

/// The expiry time of a lifetime that starts at `now`.
pub open spec fn expiry_of(now: u64, expires_in: u64) -> int {
    now + expires_in
}

/// The lifetime left at `now` of a token expiring at `expires_at`.
pub open spec fn left_at(expires_at: u64, now: u64) -> int {
    expires_at - now
}

/// The token to store for an answer received at `now`.
pub fn store_from(tr: TokenResponse, now: u64) -> (ts: TokenStore)
    requires
        now + tr.expires_in <= u64::MAX,
    ensures
        ts.access_token == tr.access_token,
        ts.refresh_token == tr.refresh_token,
        ts.expires_at == expiry_of(now, tr.expires_in),
{
    TokenStore { access_token: tr.access_token, refresh_token: tr.refresh_token, expires_at: now + tr.expires_in }
}

/// A stored token as an answer read at `now`: the lifetime left.
pub fn response_from(ts: &TokenStore, now: u64) -> (tr: TokenResponse)
    requires
        now <= ts.expires_at,
    ensures
        tr.access_token == ts.access_token,
        tr.refresh_token == ts.refresh_token,
        tr.expires_in == left_at(ts.expires_at, now),
{
    TokenResponse {
        access_token: ts.access_token.clone(),
        refresh_token: ts.refresh_token.clone(),
        expires_in: ts.expires_at - now,
    }
}

/// Whether the stored access token is to be refreshed at `now`: from a
/// minute before it expires.
pub fn needs_refresh(ts: &TokenStore, now: u64) -> (b: bool)
    requires
        ts.expires_at >= REFRESH_MARGIN_SECS,
    ensures
        b == (now + REFRESH_MARGIN_SECS >= ts.expires_at),
{
    now >= ts.expires_at - REFRESH_MARGIN_SECS
}

/// `{base}/auth/login`.
pub fn login_url(api_base: &str) -> (u: String)
    ensures
        u@ == api_base@ + "/auth/login"@,
{
    let mut u = api_base.to_owned();
    u.append("/auth/login");
    u
}

/// `{base}/auth/refresh`.
pub fn refresh_url(api_base: &str) -> (u: String)
    ensures
        u@ == api_base@ + "/auth/refresh"@,
{
    let mut u = api_base.to_owned();
    u.append("/auth/refresh");
    u
}

/// A token stored at `now` and read back at the same moment has the
/// lifetime it was answered with; read back later, the lifetime shrinks
/// by the time passed.
pub proof fn stored_lifetime_reads_back(expires_in: u64, now: u64, later: u64)
    requires
        now + expires_in <= u64::MAX,
        now <= later <= now + expires_in,
    ensures
        left_at(expiry_of(now, expires_in) as u64, now) == expires_in,
        left_at(expiry_of(now, expires_in) as u64, later) == expires_in - (later - now),
{
}

} // verus!
