use vstd::prelude::*;

use crate::creds::Credentials;
use crate::errors::{AuthErrors, Error, MiscErrors};
use crate::http::post_login;
use crate::text::{dec_str, opt_str_view, u64_to_string};

verus! {

/// Seconds after which a session token is treated as stale. The server keeps
/// sessions for 3600 s; stopping one minute short leaves a margin, so that a
/// token handed out as valid stays usable through the caller's next request.
pub const COOKIE_LIFETIME_SECS: u64 = 3540;

/// A session token is expired once the elapsed time since its creation
/// reaches [`COOKIE_LIFETIME_SECS`] (inclusive on the expired side). A clock
/// reading earlier than the creation time counts as no elapsed time.
pub open spec fn cookie_expired(created_secs: u64, now_secs: u64) -> bool {
    now_secs >= created_secs && now_secs - created_secs >= COOKIE_LIFETIME_SECS
}

/// `"SID="` starts at position `i` of `h`.
pub open spec fn sid_at(h: Seq<char>, i: int) -> bool {
    0 <= i && i + 4 <= h.len() && h.subrange(i, i + 4) == "SID="@
}

/// The first position at or after `i` where `"SID="` starts, or -1 if there
/// is none.
pub open spec fn find_sid_from(h: Seq<char>, i: int) -> int
    decreases h.len() - i,
{
    if i < 0 || i + 4 > h.len() {
        -1
    } else if sid_at(h, i) {
        i
    } else {
        find_sid_from(h, i + 1)
    }
}

/// The first position at or after `i` holding the character `c`, or -1 if
/// there is none.
pub open spec fn find_char_from(h: Seq<char>, i: int, c: char) -> int
    decreases h.len() - i,
{
    if i < 0 || i >= h.len() {
        -1
    } else if h[i] == c {
        i
    } else {
        find_char_from(h, i + 1, c)
    }
}

/// The session token carried by a cookie header: the characters between the
/// first occurrence of `"SID="` and the next `';'` (or the end of the
/// header), or nothing when `"SID="` does not occur.
pub open spec fn sid_token(h: Seq<char>) -> Option<Seq<char>> {
    let i = find_sid_from(h, 0);
    if i < 0 {
        Option::None
    } else {
        let start = i + 4;
        let j = find_char_from(h, start, ';');
        let end = if j < 0 { h.len() as int } else { j };
        Option::Some(h.subrange(start, end))
    }
}

/// Extracts the session token from a `set-cookie` header value.
pub fn extract_sid(header: &str) -> (r: Option<String>)
    ensures
        opt_str_view(r) == sid_token(header@),
{
    let ghost h = header@;
    proof {
        reveal_strlit("SID=");
        assert("SID="@ =~= seq!['S', 'I', 'D', '=']);
    }
    let len = header.unicode_len();
    if len < 4 {
        proof {
            assert(find_sid_from(h, 0) == -1);
        }
        return None;
    }
    let mut i: usize = 0;
    while i <= len - 4 && !(header.get_char(i) == 'S' && header.get_char(i + 1) == 'I'
        && header.get_char(i + 2) == 'D' && header.get_char(i + 3) == '=')
        invariant
            h == header@,
            len == h.len(),
            4 <= len,
            i <= len - 3,
            "SID="@ == seq!['S', 'I', 'D', '='],
            find_sid_from(h, 0) == find_sid_from(h, i as int),
        decreases len - i,
    {
        proof {
            assert(h.subrange(i as int, i as int + 4) =~= seq![
                h[i as int],
                h[i as int + 1],
                h[i as int + 2],
                h[i as int + 3],
            ]);
            assert(!sid_at(h, i as int));
        }
        i += 1;
    }
    if i > len - 4 {
        proof {
            assert(find_sid_from(h, i as int) == -1);
        }
        return None;
    }
    proof {
        assert(h.subrange(i as int, i as int + 4) =~= seq![
            h[i as int],
            h[i as int + 1],
            h[i as int + 2],
            h[i as int + 3],
        ]);
        assert(sid_at(h, i as int));
        assert(find_sid_from(h, 0) == i as int);
    }
    let start = i + 4;
    let mut j: usize = start;
    while j < len && header.get_char(j) != ';'
        invariant
            h == header@,
            len == h.len(),
            start <= j <= len,
            find_char_from(h, start as int, ';') == find_char_from(h, j as int, ';'),
        decreases len - j,
    {
        j += 1;
    }
    let token = header.substring_char(start, j).to_owned();
    proof {
        if j < len {
            assert(find_char_from(h, start as int, ';') == j as int);
        } else {
            assert(find_char_from(h, start as int, ';') == -1);
        }
    }
    Some(token)
}

/// The expiry threshold is inclusive on the expired side: a session created
/// at some clock reading is still fresh one second before the threshold and
/// expired exactly at it.
pub proof fn lemma_expiry_boundary(created_secs: u64)
    requires
        created_secs + COOKIE_LIFETIME_SECS <= u64::MAX,
    ensures
        !cookie_expired(created_secs, (created_secs + COOKIE_LIFETIME_SECS - 1) as u64),
        cookie_expired(created_secs, (created_secs + COOKIE_LIFETIME_SECS) as u64),
{
}

/// The cached session: the token and the clock reading at which it was
/// issued, replaced as a whole on every re-authentication.
#[derive(Debug, Clone)]
pub struct Cookie {
    pub cookie: String,
    pub time_of_creation_secs: u64,
}

/// The message reported when a successful login response carries a session
/// cookie header in which no token can be found.
pub open spec fn malformed_cookie_message() -> Seq<char> {
    "the login response's session cookie header is malformed."@
}

/// The message reported when the login response has an unexpected status.
pub open spec fn login_misc_message(status: u16) -> Seq<char> {
    "in-library error code: 001. something went wrong. we don't really know what. status code: "@
        + dec_str(status as nat)
}

/// An error that the login exchange can produce.
pub open spec fn is_login_error(e: Error) -> bool {
    ||| e matches Error::AuthError(_)
    ||| e matches Error::MiscError(MiscErrors::ReqwestError(_))
}

/// Classifies a login response. A 2xx status with a parsable session cookie
/// yields the session; a 2xx response without the cookie header is treated
/// as wrong credentials; 403 is the server's lock-out; anything else is a
/// miscellaneous authentication failure carrying the status code.
pub fn login_outcome(status: u16, set_cookie: Option<String>, now_secs: u64) -> (r: Result<
    Cookie,
    Error,
>)
    ensures
        200 <= status < 300 && set_cookie is None ==> r == Err::<Cookie, Error>(
            Error::AuthError(AuthErrors::WrongCreds),
        ),
        set_cookie matches Some(h) ==> 200 <= status < 300 && sid_token(h@) is Some ==> (r matches
            Ok(c) && Some(c.cookie@) == sid_token(h@) && c.time_of_creation_secs == now_secs),
        set_cookie matches Some(h) ==> 200 <= status < 300 && sid_token(h@) is None ==> (r matches
            Err(e) && e matches Error::AuthError(AuthErrors::MiscError(m))
            && m@ == malformed_cookie_message()),
        !(200 <= status < 300) && status == 403 ==> r == Err::<Cookie, Error>(
            Error::AuthError(AuthErrors::TooManyFailedAttempts),
        ),
        !(200 <= status < 300) && status != 403 ==> (r matches Err(e)
            && e matches Error::AuthError(AuthErrors::MiscError(m))
            && m@ == login_misc_message(status)),
        r matches Ok(c) ==> c.time_of_creation_secs == now_secs,
        r matches Err(e) ==> is_login_error(e),
{
    if 200 <= status && status < 300 {
        match set_cookie {
            Some(header) => match extract_sid(header.as_str()) {
                Some(token) => Ok(Cookie { cookie: token, time_of_creation_secs: now_secs }),
                None => Err(
                    Error::AuthError(
                        AuthErrors::MiscError(
                            "the login response's session cookie header is malformed.".to_owned(),
                        ),
                    ),
                ),
            },
            None => Err(Error::AuthError(AuthErrors::WrongCreds)),
        }
    } else if status == 403 {
        Err(Error::AuthError(AuthErrors::TooManyFailedAttempts))
    } else {
        let mut m =
            "in-library error code: 001. something went wrong. we don't really know what. status code: ".to_owned();
        m.append(u64_to_string(status as u64).as_str());
        Err(Error::AuthError(AuthErrors::MiscError(m)))
    }
}

impl Cookie {
    /// Performs one login exchange and makes a fresh session from it,
    /// stamped with the caller's clock reading.
    pub fn new(
        authority: &str,
        reqwest_client: &reqwest::blocking::Client,
        credentials: &Credentials,
        now_secs: u64,
    ) -> (r: Result<Cookie, Error>)
        ensures
            r matches Ok(c) ==> c.time_of_creation_secs == now_secs,
            r matches Err(e) ==> is_login_error(e),
    {
        match post_login(
            reqwest_client,
            authority,
            credentials.username.as_str(),
            credentials.password.as_str(),
        ) {
            Ok((status, set_cookie)) => login_outcome(status, set_cookie, now_secs),
            Err(msg) => Err(Error::MiscError(MiscErrors::ReqwestError(msg))),
        }
    }

    /// True exactly when the elapsed time from this session's creation to
    /// `now_secs` has reached the expiry threshold.
    pub fn is_expired(&self, now_secs: u64) -> (r: bool)
        ensures
            r == cookie_expired(self.time_of_creation_secs, now_secs),
    {
        if now_secs >= self.time_of_creation_secs {
            now_secs - self.time_of_creation_secs >= COOKIE_LIFETIME_SECS
        } else {
            false
        }
    }

    /// Hands this session back unchanged while it is still fresh, and
    /// replaces it by a new login, stamped with `now_secs`, once it has
    /// expired.
    pub fn reset(
        self,
        authority: &str,
        reqwest_client: &reqwest::blocking::Client,
        credentials: &Credentials,
        now_secs: u64,
    ) -> (r: Result<Cookie, Error>)
        ensures
            !cookie_expired(self.time_of_creation_secs, now_secs) ==> r == Ok::<Cookie, Error>(
                self,
            ),
            cookie_expired(self.time_of_creation_secs, now_secs) ==> (r matches Ok(c)
                ==> c.time_of_creation_secs == now_secs),
            r matches Err(e) ==> is_login_error(e),
    {
        if self.is_expired(now_secs) {
            Cookie::new(authority, reqwest_client, credentials, now_secs)
        } else {
            Ok(self)
        }
    }
}

} // verus!
