use vstd::prelude::*;

use crate::api::Api;
use crate::cookie::is_login_error;
use crate::errors::{Error, FlatError, MiscErrors};
use crate::http::{parse_json, post_with_cookie};
use crate::text::{dec_str, u64_to_string};

verus! {

/// An error that the buildInfo query can produce: a login or transport
/// failure, or a serialization failure on the response body.
pub open spec fn is_build_info_error(e: Error) -> bool {
    ||| is_login_error(e)
    ||| e matches Error::MiscError(MiscErrors::JsonSerdeError(_))
}

/// The transport-error message for an authenticated endpoint answered with
/// an unexpected status.
pub open spec fn endpoint_misc_message(status: u16) -> Seq<char> {
    "no specifications. code: "@ + dec_str(status as nat)
}

/// Classifies an authenticated endpoint's response: a 2xx status hands the
/// body back, and any other status is a transport error carrying the
/// numeric status code.
pub fn endpoint_outcome(status: u16, body: String) -> (r: Result<String, Error>)
    ensures
        200 <= status < 300 <==> r is Ok,
        200 <= status < 300 ==> r == Ok::<String, Error>(body),
        !(200 <= status < 300) ==> (r matches Err(e)
            && e matches Error::MiscError(MiscErrors::ReqwestError(m))
            && m@ == endpoint_misc_message(status)),
{
    if 200 <= status && status < 300 {
        Ok(body)
    } else {
        let mut m = "no specifications. code: ".to_owned();
        m.append(u64_to_string(status as u64).as_str());
        Err(Error::MiscError(MiscErrors::ReqwestError(m)))
    }
}

/// Lifts one JSON-parse outcome into the library's error taxonomy: a parsed
/// value is handed back, and a parse failure surfaces as a serialization
/// error carrying the parser's message.
pub fn build_info_outcome(parsed: Result<serde_json::Value, String>) -> (r: Result<
    serde_json::Value,
    Error,
>)
    ensures
        parsed matches Ok(v) ==> r == Ok::<serde_json::Value, Error>(v),
        parsed matches Err(m) ==> r == Err::<serde_json::Value, Error>(
            Error::MiscError(MiscErrors::JsonSerdeError(m)),
        ),
{
    match parsed {
        Ok(v) => Ok(v),
        Err(msg) => Err(FlatError::JsonSerdeError(msg).unflatten_err()),
    }
}

impl Api {
    /// POSTs to one authenticated endpoint and hands back the body text of a
    /// 2xx response; any other status becomes a transport error carrying the
    /// status code.
    fn query_text(&mut self, path: &str) -> (r: Result<String, Error>)
        ensures
            final(self).authority == old(self).authority,
            final(self).credentials == old(self).credentials,
            final(self).reqwest_client == old(self).reqwest_client,
            r matches Err(e) ==> is_login_error(e),
    {
        let token = match self.get_cookie() {
            Ok(t) => t,
            Err(e) => {
                return Err(e);
            },
        };
        match post_with_cookie(&self.reqwest_client, self.authority.as_str(), path, token.as_str())
        {
            Ok((status, body)) => endpoint_outcome(status, body),
            Err(msg) => Err(Error::MiscError(MiscErrors::ReqwestError(msg))),
        }
    }

    /// The service's application version, as plain text.
    pub fn app_version(&mut self) -> (r: Result<String, Error>)
        ensures
            final(self).authority == old(self).authority,
            final(self).credentials == old(self).credentials,
            final(self).reqwest_client == old(self).reqwest_client,
            r matches Err(e) ==> is_login_error(e),
    {
        self.query_text("/api/v2/app/version")
    }

    /// The service's web API version, as plain text.
    pub fn web_api_version(&mut self) -> (r: Result<String, Error>)
        ensures
            final(self).authority == old(self).authority,
            final(self).credentials == old(self).credentials,
            final(self).reqwest_client == old(self).reqwest_client,
            r matches Err(e) ==> is_login_error(e),
    {
        self.query_text("/api/v2/app/webapiVersion")
    }

    /// The service's build information, parsed as one JSON document.
    pub fn build_version(&mut self) -> (r: Result<serde_json::Value, Error>)
        ensures
            final(self).authority == old(self).authority,
            final(self).credentials == old(self).credentials,
            final(self).reqwest_client == old(self).reqwest_client,
            r matches Err(e) ==> is_build_info_error(e),
    {
        let out = match self.query_text("/api/v2/app/buildInfo") {
            Ok(s) => s,
            Err(e) => {
                return Err(e);
            },
        };
        build_info_outcome(parse_json(out.as_str()))
    }

    /// The service's build information, as the raw body text.
    pub fn build_version_raw(&mut self) -> (r: Result<String, Error>)
        ensures
            final(self).authority == old(self).authority,
            final(self).credentials == old(self).credentials,
            final(self).reqwest_client == old(self).reqwest_client,
            r matches Err(e) ==> is_login_error(e),
    {
        self.query_text("/api/v2/app/buildInfo")
    }
}

} // verus!
