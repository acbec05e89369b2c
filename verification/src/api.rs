use vstd::prelude::*;

use crate::cookie::{cookie_expired, is_login_error, Cookie};
use crate::creds::Credentials;
use crate::errors::{Error, MiscErrors};
use crate::http::{new_client, now_secs};

verus! {

/// `s` with every trailing `'/'` removed.
pub open spec fn trimmed(s: Seq<char>) -> Seq<char>
    decreases s.len(),
{
    if s.len() > 0 && s.last() == '/' {
        trimmed(s.drop_last())
    } else {
        s
    }
}

/// Removes every trailing `'/'`.
pub fn trim_trailing_slashes(s: &str) -> (r: String)
    ensures
        r@ == trimmed(s@),
{
    let len = s.unicode_len();
    proof {
        assert(s@.take(len as int) =~= s@);
    }
    let mut end = len;
    while end > 0 && s.get_char(end - 1) == '/'
        invariant
            len == s@.len(),
            end <= len,
            trimmed(s@) == trimmed(s@.take(end as int)),
        decreases end,
    {
        proof {
            assert(s@.take(end as int).drop_last() =~= s@.take(end - 1));
            assert(s@.take(end as int).last() == s@[end - 1]);
        }
        end -= 1;
    }
    proof {
        if end > 0 {
            assert(s@.take(end as int).last() == s@[end as int - 1]);
        } else {
            assert(s@.take(0) =~= Seq::<char>::empty());
        }
        assert(trimmed(s@.take(end as int)) == s@.take(end as int));
    }
    let r = s.substring_char(0, end).to_owned();
    proof {
        assert(s@.subrange(0, end as int) =~= s@.take(end as int));
    }
    r
}

/// One client handle: the service's authority, the cached session, the HTTP
/// client and the credentials used to renew the session.
#[derive(Debug)]
pub struct Api {
    pub authority: String,
    pub cookie: Cookie,
    pub reqwest_client: reqwest::blocking::Client,
    pub credentials: Credentials,
}

impl Api {
    /// Builds a handle for the service at `authority` (trailing slashes
    /// dropped), performing one authentication so that the cached session is
    /// fresh from the start, stamped with the caller's clock reading.
    pub fn new_at(authority: &str, credentials: Credentials, now_secs: u64) -> (r: Result<
        Api,
        Error,
    >)
        ensures
            r matches Ok(api) ==> api.authority@ == trimmed(authority@) && api.credentials
                == credentials && api.cookie.time_of_creation_secs == now_secs,
            r matches Err(e) ==> is_login_error(e),
    {
        let authority = trim_trailing_slashes(authority);
        let reqwest_client = match new_client() {
            Ok(c) => c,
            Err(m) => {
                return Err(Error::MiscError(MiscErrors::ReqwestError(m)));
            },
        };
        match Cookie::new(authority.as_str(), &reqwest_client, &credentials, now_secs) {
            Ok(cookie) => Ok(Api { authority, cookie, reqwest_client, credentials }),
            Err(e) => Err(e),
        }
    }

    /// Reads the clock and builds a handle whose cached session is stamped
    /// with that reading.
    pub fn new(authority: &str, credentials: Credentials) -> (r: Result<Api, Error>)
        ensures
            r matches Ok(api) ==> api.authority@ == trimmed(authority@) && api.credentials
                == credentials,
            r matches Err(e) ==> is_login_error(e),
    {
        let now = now_secs();
        Api::new_at(authority, credentials, now)
    }

    /// Hands back a session token valid at the clock reading `now_secs`,
    /// re-authenticating first when (and only when) the cached session has
    /// expired. Within the freshness window the cached session is left
    /// untouched and its token is returned, so no second login happens; once
    /// the window has elapsed, one login replaces the whole session, and the
    /// new session is stamped with `now_secs`.
    pub fn get_cookie_at(&mut self, now_secs: u64) -> (r: Result<String, Error>)
        ensures
            final(self).authority == old(self).authority,
            final(self).credentials == old(self).credentials,
            final(self).reqwest_client == old(self).reqwest_client,
            !cookie_expired(old(self).cookie.time_of_creation_secs, now_secs)
                ==> ((r matches Ok(t) && t@ == old(self).cookie.cookie@) && final(self).cookie
                == old(self).cookie),
            cookie_expired(old(self).cookie.time_of_creation_secs, now_secs) ==> (r matches Ok(t)
                ==> final(self).cookie.time_of_creation_secs == now_secs
                    && t@ == final(self).cookie.cookie@),
            r matches Err(e) ==> *final(self) == *old(self) && is_login_error(e),
    {
        if !self.cookie.is_expired(now_secs) {
            Ok(self.cookie.cookie.clone())
        } else {
            match Cookie::new(
                self.authority.as_str(),
                &self.reqwest_client,
                &self.credentials,
                now_secs,
            ) {
                Ok(c) => {
                    self.cookie = c;
                    Ok(self.cookie.cookie.clone())
                },
                Err(e) => Err(e),
            }
        }
    }

    /// Reads the clock and hands back a session token valid now, renewing
    /// the cached session first if it has gone stale.
    pub fn get_cookie(&mut self) -> (r: Result<String, Error>)
        ensures
            final(self).authority == old(self).authority,
            final(self).credentials == old(self).credentials,
            final(self).reqwest_client == old(self).reqwest_client,
            r matches Ok(t) ==> t@ == final(self).cookie.cookie@,
            r matches Err(e) ==> *final(self) == *old(self) && is_login_error(e),
    {
        let now = now_secs();
        self.get_cookie_at(now)
    }
}

} // verus!
