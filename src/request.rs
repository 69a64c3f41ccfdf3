//! The requests of the wire protocol: their URLs and headers.
use vstd::prelude::*;
use crate::text::{decimal, decimal_text, joined};
use vstd::string::StringExecFns;

verus! {

/// One HTTP header, by name and value.
#[derive(Debug)]
pub struct Header {
    pub name: String,
    pub value: String,
}

/// The user agent every request announces.
pub open spec fn user_agent() -> Seq<char> {
    "Mozilla/5.0"@
}

/// The content type every request announces.
pub open spec fn json_content_type() -> Seq<char> {
    "application/json"@
}

/// Whether `h` has name `name` and value `value`.
pub open spec fn is_header(h: Header, name: Seq<char>, value: Seq<char>) -> bool {
    h.name@ == name && h.value@ == value
}

/// A header with the given name and value.
pub fn header(name: &str, value: &str) -> (r: Header)
    ensures
        r.name@ == name@,
        r.value@ == value@,
{
    Header { name: String::from_str(name), value: String::from_str(value) }
}

/// URL of the script that embeds the API token; `now_secs` only defeats
/// caches.
pub fn script_url(host: &str, now_secs: u64) -> (r: String)
    ensures
        r@ == host@ + "/nessus6.js?v="@ + decimal(now_secs as nat),
{
    let mut url = joined(host, "/nessus6.js?v=");
    let stamp = decimal_text(now_secs);
    url.append(stamp.as_str());
    url
}

/// URL of the login endpoint.
pub fn session_url(host: &str) -> (r: String)
    ensures
        r@ == host@ + "/session"@,
{
    joined(host, "/session")
}

/// URL that starts scan `scan_id`.
pub fn launch_url(host: &str, scan_id: u32) -> (r: String)
    ensures
        r@ == host@ + "/scans/"@ + decimal(scan_id as nat) + "/launch"@,
{
    let mut url = joined(host, "/scans/");
    let id = decimal_text(scan_id as u64);
    url.append(id.as_str());
    url.append("/launch");
    url
}

/// The cookie-style header value that carries a session token.
pub fn session_cookie(session_token: &str) -> (r: String)
    ensures
        r@ == "token="@ + session_token@,
{
    joined("token=", session_token)
}

/// Headers of the login request.
pub fn login_headers(api_token: &str) -> (r: Vec<Header>)
    ensures
        r.len() == 3,
        is_header(r[0], "User-Agent"@, user_agent()),
        is_header(r[1], "X-Api-Token"@, api_token@),
        is_header(r[2], "content-type"@, json_content_type()),
{
    let mut v: Vec<Header> = Vec::new();
    v.push(header("User-Agent", "Mozilla/5.0"));
    v.push(header("X-Api-Token", api_token));
    v.push(header("content-type", "application/json"));
    v
}

/// Headers of a launch request; `cookie` is the value of `session_cookie`.
pub fn launch_headers(api_token: &str, cookie: &str) -> (r: Vec<Header>)
    ensures
        r.len() == 4,
        is_header(r[0], "User-Agent"@, user_agent()),
        is_header(r[1], "X-Api-Token"@, api_token@),
        is_header(r[2], "X-Cookie"@, cookie@),
        is_header(r[3], "content-type"@, json_content_type()),
{
    let mut v: Vec<Header> = Vec::new();
    v.push(header("User-Agent", "Mozilla/5.0"));
    v.push(header("X-Api-Token", api_token));
    v.push(header("X-Cookie", cookie));
    v.push(header("content-type", "application/json"));
    v
}

} // verus!
