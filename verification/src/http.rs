use vstd::prelude::*;

verus! {

/// `reqwest::blocking::Client`, the HTTP client handle the library keeps.
#[verifier::external_type_specification]
#[verifier::external_body]
pub struct ExClient(reqwest::blocking::Client);

/// `reqwest::blocking::multipart::Form`, a multipart request body under
/// assembly.
#[verifier::external_type_specification]
#[verifier::external_body]
pub struct ExForm(reqwest::blocking::multipart::Form);

/// `serde_json::Value`, a parsed JSON document.
#[verifier::external_type_specification]
#[verifier::external_body]
pub struct ExValue(serde_json::Value);

/// The text fields a multipart form holds, as (name, value) pairs in the
/// order they were added.
pub uninterp spec fn form_texts(f: reqwest::blocking::multipart::Form) -> Seq<(Seq<char>, Seq<char>)>;

/// The file parts a multipart form holds, as (part name, filename, media
/// type, content bytes) tuples in the order they were added.
pub uninterp spec fn form_files(f: reqwest::blocking::multipart::Form) -> Seq<
    (Seq<char>, Seq<char>, Seq<char>, Seq<u8>),
>;

/// Whether `serde_json::from_str` accepts the text as one JSON document; a
/// function of the text alone.
pub uninterp spec fn json_parses(s: Seq<char>) -> bool;

/// `c` lowered if it is an ASCII uppercase letter, unchanged otherwise.
pub open spec fn ascii_lower_char(c: char) -> char {
    if 65 <= c as u32 && c as u32 <= 90 {
        ((c as u32 + 32) as u8) as char
    } else {
        c
    }
}

/// `s` with every ASCII uppercase letter lowered: the form in which mime's
/// parser stores an accepted media type.
pub open spec fn ascii_lower(s: Seq<char>) -> Seq<char> {
    s.map_values(|c: char| ascii_lower_char(c))
}

/// Relies on reqwest::blocking::Client::builder/build: a client with default
/// settings, or the initialization error as text. Like every
/// `reqwest::blocking` call in this module, it must not run inside an async
/// runtime.
#[verifier::external_body]
pub(crate) fn new_client() -> Result<reqwest::blocking::Client, String> {
    match reqwest::blocking::Client::builder().build() {
        Ok(c) => Ok(c),
        Err(e) => Err(e.to_string()),
    }
}

/// Relies on std::time::SystemTime::now: the clock's seconds since the Unix
/// epoch (zero if the clock reads earlier than the epoch).
#[verifier::external_body]
pub(crate) fn now_secs() -> u64 {
    match std::time::SystemTime::now().duration_since(std::time::UNIX_EPOCH) {
        Ok(d) => d.as_secs(),
        Err(_) => 0,
    }
}

/// Relies on reqwest::blocking's request builder: POSTs the username and
/// password as a form to the login endpoint under `authority`, and hands
/// back the response's status code together with its `set-cookie` header,
/// if that header is present and readable as text.
#[verifier::external_body]
pub(crate) fn post_login(
    client: &reqwest::blocking::Client,
    authority: &str,
    username: &str,
    password: &str,
) -> Result<(u16, Option<String>), String> {
    let req = client
        .post(format!("{}/api/v2/auth/login", authority))
        .header(reqwest::header::REFERER, authority)
        .form(&[("username", username), ("password", password)]);
    let resp = match req.send() {
        Ok(r) => r,
        Err(e) => return Err(e.to_string()),
    };
    let cookie = match resp.headers().get("set-cookie") {
        Some(v) => v.to_str().ok().map(|s| s.to_string()),
        None => None,
    };
    Ok((resp.status().as_u16(), cookie))
}

/// Relies on reqwest::blocking::multipart::Form::new: a form with no parts.
#[verifier::external_body]
pub(crate) fn form_new() -> (f: reqwest::blocking::multipart::Form)
    ensures
        form_texts(f) == Seq::<(Seq<char>, Seq<char>)>::empty(),
        form_files(f) == Seq::<(Seq<char>, Seq<char>, Seq<char>, Seq<u8>)>::empty(),
{
    reqwest::blocking::multipart::Form::new()
}

/// Relies on reqwest::blocking::multipart::Form::text, which appends one
/// text part with the given name and value.
#[verifier::external_body]
pub(crate) fn form_text(
    form: reqwest::blocking::multipart::Form,
    name: &str,
    value: &str,
) -> (f: reqwest::blocking::multipart::Form)
    ensures
        form_texts(f) == form_texts(form).push((name@, value@)),
        form_files(f) == form_files(form),
{
    form.text(name.to_string(), value.to_string())
}

/// Relies on reqwest::blocking::multipart::{Part::bytes, Part::file_name,
/// Part::mime_str, Form::part}: appends one file part with the given part
/// name, filename, media type and content bytes. `Part::mime_str` rejects a
/// string that does not parse as a media type; that rejection comes back as
/// the error. An accepted media type is stored in the ASCII-lowercased form
/// mime's parser keeps.
#[verifier::external_body]
pub(crate) fn form_file_part(
    form: reqwest::blocking::multipart::Form,
    name: &str,
    filename: &str,
    mime: &str,
    bytes: Vec<u8>,
) -> (r: Result<reqwest::blocking::multipart::Form, String>)
    ensures
        r matches Ok(f) ==> form_files(f) == form_files(form).push(
            (name@, filename@, ascii_lower(mime@), bytes@),
        ) && form_texts(f) == form_texts(form),
{
    let part = match reqwest::blocking::multipart::Part::bytes(bytes)
        .file_name(filename.to_string())
        .mime_str(mime)
    {
        Ok(p) => p,
        Err(e) => return Err(e.to_string()),
    };
    Ok(form.part(name.to_string(), part))
}

/// Relies on reqwest::blocking's request builder: POSTs the multipart form
/// to the torrents/add endpoint under `authority`, with the session token
/// attached as `Cookie: SID=<token>`, and hands back the response's status
/// code.
#[verifier::external_body]
pub(crate) fn post_torrents_add(
    client: &reqwest::blocking::Client,
    authority: &str,
    token: &str,
    form: reqwest::blocking::multipart::Form,
) -> Result<u16, String> {
    let resp = match client
        .post(format!("{}/api/v2/torrents/add", authority))
        .multipart(form)
        .header(reqwest::header::COOKIE, format!("SID={}", token))
        .send()
    {
        Ok(r) => r,
        Err(e) => return Err(e.to_string()),
    };
    Ok(resp.status().as_u16())
}

/// Relies on reqwest::blocking's request builder: POSTs an empty body to
/// `authority` + `path` with the session token attached as
/// `Cookie: SID=<token>`, and hands back the response's status code and
/// body text.
#[verifier::external_body]
pub(crate) fn post_with_cookie(
    client: &reqwest::blocking::Client,
    authority: &str,
    path: &str,
    token: &str,
) -> Result<(u16, String), String> {
    let resp = match client
        .post(format!("{}{}", authority, path))
        .header(reqwest::header::COOKIE, format!("SID={}", token))
        .send()
    {
        Ok(r) => r,
        Err(e) => return Err(e.to_string()),
    };
    let status = resp.status().as_u16();
    match resp.text() {
        Ok(body) => Ok((status, body)),
        Err(e) => Err(e.to_string()),
    }
}

/// Relies on serde_json::from_str: parses the text as one JSON document,
/// succeeding exactly on the texts that serde_json accepts, and handing back
/// the parse error's message otherwise.
#[verifier::external_body]
pub(crate) fn parse_json(s: &str) -> (r: Result<serde_json::Value, String>)
    ensures
        r is Ok <==> json_parses(s@),
{
    match serde_json::from_str::<serde_json::Value>(s) {
        Ok(v) => Ok(v),
        Err(e) => Err(e.to_string()),
    }
}

} // verus!
