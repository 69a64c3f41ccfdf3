//! The error type of the library.
use vstd::prelude::*;
use crate::text::{decimal, decimal_text, joined};
use vstd::string::StringExecFns;

verus! {

#[verifier::external_type_specification]
#[verifier::external_body]
pub struct ExJsonError(serde_json::Error);

/// Everything that can go wrong while authenticating or launching.
#[derive(Debug)]
pub enum NessusError {
    /// A transport-level failure of an HTTP call, with its description.
    Http(String),
    /// A response body that serde_json could not decode.
    Json(serde_json::Error),
    /// Served content that does not have the expected shape.
    Parse(String),
    /// A required configuration value is missing.
    Config(String),
    /// A launch request answered with a non-success status.
    Launch { scan_id: u32, status: u16 },
    /// Anything else, with a human-readable message.
    Other(String),
}

/// Relies on the `Display` impl of `serde_json::Error` for its message.
#[verifier::external_body]
fn json_error_text(e: &serde_json::Error) -> String {
    e.to_string()
}

impl NessusError {
    /// A human-readable description: a prefix naming the kind of error,
    /// then its message.
    pub fn describe(&self) -> (r: String)
        ensures
            match self {
                NessusError::Http(m) => r@ == "HTTP error: "@ + m@,
                NessusError::Json(_) => r@.len() >= 12 && r@.subrange(0, 12) == "JSON error: "@,
                NessusError::Parse(m) => r@ == "Parse error: "@ + m@,
                NessusError::Config(m) => r@ == "Configuration error: "@ + m@,
                NessusError::Launch { scan_id, status } => r@ == "Scan "@ + decimal(
                    *scan_id as nat,
                ) + " launch failed with status "@ + decimal(*status as nat),
                NessusError::Other(m) => r@ == "Error: "@ + m@,
            },
    {
        match self {
            NessusError::Http(m) => joined("HTTP error: ", m.as_str()),
            NessusError::Json(e) => {
                let text = json_error_text(e);
                let r = joined("JSON error: ", text.as_str());
                proof {
                    reveal_strlit("JSON error: ");
                    assert(r@.subrange(0, 12) =~= "JSON error: "@);
                }
                r
            },
            NessusError::Parse(m) => joined("Parse error: ", m.as_str()),
            NessusError::Config(m) => joined("Configuration error: ", m.as_str()),
            NessusError::Launch { scan_id, status } => {
                let mut r = joined("Scan ", decimal_text(*scan_id as u64).as_str());
                r.append(" launch failed with status ");
                r.append(decimal_text(*status as u64).as_str());
                r
            },
            NessusError::Other(m) => joined("Error: ", m.as_str()),
        }
    }
}

} // verus!
