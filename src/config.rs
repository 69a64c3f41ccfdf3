//! Connection settings for the scanner's web interface.
use vstd::prelude::*;
use crate::error::NessusError;
use vstd::string::StringExecFns;

verus! {

/// Where the scanner listens and whom to log in as.
#[derive(Debug)]
pub struct NessusConfig {
    /// Base URL of the server, e.g. `https://nessus.example.com`.
    pub host: String,
    pub username: String,
    pub password: String,
}

impl Clone for NessusConfig {
    fn clone(&self) -> (r: NessusConfig)
        ensures
            r.host@ == self.host@,
            r.username@ == self.username@,
            r.password@ == self.password@,
    {
        NessusConfig {
            host: self.host.clone(),
            username: self.username.clone(),
            password: self.password.clone(),
        }
    }
}

impl NessusConfig {
    /// Builds a configuration from the three required values, as supplied by
    /// a configuration provider. The first one missing, in the order host,
    /// username, password, is reported as a configuration error.
    pub fn from_values(host: Option<String>, username: Option<String>, password: Option<String>) -> (r:
        Result<NessusConfig, NessusError>)
        ensures
            r is Ok <==> host is Some && username is Some && password is Some,
            r matches Ok(c) ==> c.host == host->0 && c.username == username->0 && c.password
                == password->0,
            host is None ==> (r matches Err(NessusError::Config(m)) && m@ == "Missing NESSUS_HOST"@),
            host is Some && username is None ==> (r matches Err(NessusError::Config(m)) && m@
                == "Missing NESSUS_USERNAME"@),
            host is Some && username is Some && password is None ==> (r matches Err(
                NessusError::Config(m),
            ) && m@ == "Missing NESSUS_PASSWORD"@),
    {
        let host = match host {
            Some(h) => h,
            None => return Err(NessusError::Config(String::from_str("Missing NESSUS_HOST"))),
        };
        let username = match username {
            Some(u) => u,
            None => return Err(NessusError::Config(String::from_str("Missing NESSUS_USERNAME"))),
        };
        let password = match password {
            Some(p) => p,
            None => return Err(NessusError::Config(String::from_str("Missing NESSUS_PASSWORD"))),
        };
        Ok(NessusConfig { host, username, password })
    }
}

} // verus!
