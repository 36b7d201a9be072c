//! The shared access-token slot: when a cached token may be used, and what a
//! token response yields.

use vstd::prelude::*;

verus! {

/// A token and the second (Unix time) at which it expires.
#[derive(Clone, Debug)]
pub struct CachedToken {
    pub token: String,
    pub expires_at: i64,
}

/// A token is used only while more than this many seconds of it are left.
pub const REFRESH_MARGIN_SECS: i64 = 300;

/// Lifetime assumed when a token response gives none, in seconds.
pub const DEFAULT_EXPIRE_SECS: i64 = 7200;

/// The single cached token, if any.
#[derive(Clone, Debug)]
pub struct TokenCache {
    pub slot: Option<CachedToken>,
}

pub open spec fn sat_add(a: int, b: int) -> int {
    if a + b > i64::MAX {
        i64::MAX as int
    } else if a + b < i64::MIN {
        i64::MIN as int
    } else {
        a + b
    }
}

/// Whether a token expiring at `expires_at` may still be used at `now`.
pub open spec fn still_valid(expires_at: int, now: int) -> bool {
    expires_at > now + REFRESH_MARGIN_SECS
}

/// A failed call to the remote source.
#[derive(Clone, Debug)]
pub enum ApiError {
    /// The source answered with a non-zero code.
    Rejected { code: i32, msg: String },
    /// The answer lacked what was asked for.
    Incomplete,
}

impl TokenCache {
    pub fn new() -> (r: TokenCache)
        ensures
            r.slot is None,
    {
        TokenCache { slot: None }
    }

    /// The cached token, when it has more than the margin left at `now`.
    pub fn valid_token(&self, now: i64) -> (r: Option<String>)
        ensures
            match self.slot {
                Some(c) => if still_valid(c.expires_at as int, now as int) {
                    r matches Some(t) && t@ == c.token@
                } else {
                    r is None
                },
                None => r is None,
            },
    {
        match &self.slot {
            Some(c) => {
                if c.expires_at as i128 > now as i128 + REFRESH_MARGIN_SECS as i128 {
                    Some(c.token.clone())
                } else {
                    None
                }
            },
            None => None,
        }
    }

    /// Replaces the slot with a token obtained at `now`, valid for
    /// `expire_secs` seconds.
    pub fn store(&mut self, token: String, now: i64, expire_secs: i64)
        ensures
            final(self).slot matches Some(c) && c.token@ == token@ && c.expires_at as int == sat_add(now as int, expire_secs as int),
    {
        let sum: i128 = now as i128 + expire_secs as i128;
        let expires_at: i64 = if sum > i64::MAX as i128 {
            i64::MAX
        } else if sum < i64::MIN as i128 {
            i64::MIN
        } else {
            sum as i64
        };
        self.slot = Some(CachedToken { token, expires_at });
    }
}

/// What a token response yields: the token and its lifetime (7200 s when
/// none is given), or an error when the code is not 0 or no token came.
pub fn read_token_response(code: i32, msg: String, token: Option<String>, expire: Option<i64>) -> (r: Result<(String, i64), ApiError>)
    ensures
        code != 0 ==> (r matches Err(ApiError::Rejected { code: c, msg: m }) && c == code && m@ == msg@),
        code == 0 && token is None ==> (r matches Err(e) && e is Incomplete),
        code == 0 && token is Some ==> (r matches Ok((t, e)) && t@ == token->0@
            && e == match expire { Some(x) => x, None => DEFAULT_EXPIRE_SECS }),
{
    if code != 0 {
        return Err(ApiError::Rejected { code, msg });
    }
    match token {
        None => Err(ApiError::Incomplete),
        Some(t) => Ok((t, match expire { Some(x) => x, None => DEFAULT_EXPIRE_SECS })),
    }
}

/// What an answer to a download-address request yields: the first address,
/// or an error when the code is not 0 or no address came.
pub fn read_download_urls(code: i32, msg: String, urls: Option<Vec<String>>) -> (r: Result<String, ApiError>)
    ensures
        code != 0 ==> (r matches Err(ApiError::Rejected { code: c, msg: m }) && c == code && m@ == msg@),
        code == 0 ==> match urls {
            Some(v) if v@.len() > 0 => r matches Ok(u) && u@ == v@[0]@,
            _ => r matches Err(e) && e is Incomplete,
        },
{
    if code != 0 {
        return Err(ApiError::Rejected { code, msg });
    }
    match urls {
        Some(v) => {
            if v.len() > 0 {
                Ok(v[0].clone())
            } else {
                Err(ApiError::Incomplete)
            }
        },
        None => Err(ApiError::Incomplete),
    }
}

/// Whether a response code is success; the error carries code and message.
pub fn check_code(code: i32, msg: String) -> (r: Result<(), ApiError>)
    ensures
        code == 0 ==> r is Ok,
        code != 0 ==> (r matches Err(ApiError::Rejected { code: c, msg: m }) && c == code && m@ == msg@),
{
    if code != 0 {
        Err(ApiError::Rejected { code, msg })
    } else {
        Ok(())
    }
}

} // verus!
