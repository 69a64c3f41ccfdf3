//! The login exchange: the request body and the session token in the reply.
use vstd::prelude::*;
use crate::error::NessusError;
use crate::text::joined;
use vstd::string::StringExecFns;

verus! {

/// Whether serde_json accepts `text` as one JSON document.
pub uninterp spec fn json_parses(text: Seq<char>) -> bool;

/// The string held under `key` by the JSON object in `text`, if there is one.
pub uninterp spec fn json_str_member(text: Seq<char>, key: Seq<char>) -> Option<Seq<char>>;

/// The lower-case hexadecimal digit for `d`, a number below sixteen.
pub open spec fn hex_digit(d: nat) -> char {
    seq!['0', '1', '2', '3', '4', '5', '6', '7', '8', '9', 'a', 'b', 'c', 'd', 'e', 'f'][d as int]
}

/// How serde_json writes `c` inside a string literal: `"` and `\` and the
/// control characters below U+0020 are escaped, short forms first.
pub open spec fn json_escape_char(c: char) -> Seq<char> {
    let u = c as u32;
    if c == '"' {
        seq!['\\', '"']
    } else if c == '\\' {
        seq!['\\', '\\']
    } else if u == 0x08 {
        seq!['\\', 'b']
    } else if u == 0x09 {
        seq!['\\', 't']
    } else if u == 0x0a {
        seq!['\\', 'n']
    } else if u == 0x0c {
        seq!['\\', 'f']
    } else if u == 0x0d {
        seq!['\\', 'r']
    } else if u < 0x20 {
        seq!['\\', 'u', '0', '0', hex_digit((u / 16) as nat), hex_digit((u % 16) as nat)]
    } else {
        seq![c]
    }
}

/// The characters of `s`, each escaped as in a JSON string literal.
pub open spec fn json_escaped(s: Seq<char>) -> Seq<char>
    decreases s.len(),
{
    if s.len() == 0 {
        seq![]
    } else {
        json_escaped(s.drop_last()) + json_escape_char(s.last())
    }
}

/// The JSON string literal that serde_json writes for `s`.
pub open spec fn json_quoted(s: Seq<char>) -> Seq<char> {
    seq!['"'] + json_escaped(s) + seq!['"']
}

/// Relies on `serde_json::from_str` into a `serde_json::Value`, then
/// `Value::get` and `Value::as_str`: decoding fails exactly on text that is
/// not one JSON document, and a member that is missing or is not a string
/// gives `None`.
#[verifier::external_body]
fn json_string_member(text: &str, key: &str) -> (r: Result<Option<String>, serde_json::Error>)
    ensures
        r is Ok <==> json_parses(text@),
        r matches Ok(Some(v)) ==> json_str_member(text@, key@) == Some(v@),
        r matches Ok(None) ==> json_str_member(text@, key@) is None,
{
    serde_json::from_str::<serde_json::Value>(text).map(
        |v| v.get(key).and_then(|t| t.as_str()).map(|t| t.to_string()),
    )
}

/// Relies on `serde_json::to_string` for a string: its JSON literal, quoted
/// and escaped through serde_json's escape table. Serializing a `str` into
/// the `Vec` that `to_string` writes to cannot fail.
#[verifier::external_body]
fn json_string_literal(s: &str) -> (r: Result<String, serde_json::Error>)
    ensures
        r is Ok,
        r matches Ok(t) ==> t@ == json_quoted(s@),
{
    serde_json::to_string(s)
}

/// The session token, given the `token` member of a decoded login reply.
pub fn session_token_from_member(member: Option<String>) -> (r: Result<String, NessusError>)
    ensures
        match member {
            Some(t) => r matches Ok(s) && s@ == t@,
            None => r matches Err(NessusError::Parse(_)),
        },
{
    match member {
        Some(t) => Ok(t),
        None => Err(NessusError::Parse(String::from_str("Missing 'token' field in session response"))),
    }
}

/// The session token in the body of a login reply: its string member
/// `token`.
pub fn parse_session_response(body: &str) -> (r: Result<String, NessusError>)
    ensures
        r is Ok <==> json_parses(body@) && json_str_member(body@, "token"@) is Some,
        r is Ok ==> r->Ok_0@ == json_str_member(body@, "token"@)->0,
        !json_parses(body@) ==> r matches Err(NessusError::Json(_)),
        json_parses(body@) && json_str_member(body@, "token"@) is None ==> r matches Err(
            NessusError::Parse(_),
        ),
{
    match json_string_member(body, "token") {
        Ok(member) => session_token_from_member(member),
        Err(e) => Err(NessusError::Json(e)),
    }
}

/// The login request body, given the JSON literals of the username and the
/// password.
pub fn session_body_from(username_json: &str, password_json: &str) -> (r: String)
    ensures
        r@ == "{\"username\":"@ + username_json@ + ",\"password\":"@ + password_json@ + "}"@,
{
    let mut body = joined("{\"username\":", username_json);
    body.append(",\"password\":");
    body.append(password_json);
    body.append("}");
    body
}

/// The login request body `{"username":..,"password":..}`.
pub fn session_request_body(username: &str, password: &str) -> (r: String)
    ensures
        r@ == "{\"username\":"@ + json_quoted(username@) + ",\"password\":"@ + json_quoted(
            password@,
        ) + "}"@,
{
    let u = match json_string_literal(username) {
        Ok(u) => u,
        Err(_) => {
            proof {
                assert(false);
            }
            String::new()
        },
    };
    let p = match json_string_literal(password) {
        Ok(p) => p,
        Err(_) => {
            proof {
                assert(false);
            }
            String::new()
        },
    };
    session_body_from(u.as_str(), p.as_str())
}

} // verus!
