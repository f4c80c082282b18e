use vstd::prelude::*;
use vstd::string::*;

verus! {

/// Seconds a request may take before it is given up.
pub const DEFAULT_TIMEOUT_SECS: u64 = 30;

/// The headers and limits every request is sent with.
#[derive(Debug)]
pub struct ClientConfig {
    /// The `User-Agent` header.
    pub user_agent: String,
    /// The name of the marker header.
    pub marker_name: String,
    /// The value of the marker header.
    pub marker_value: String,
    /// How long a request may take, in seconds.
    pub timeout_secs: u64,
}

impl ClientConfig {
    /// The standard configuration: `User-Agent: httpie-lite/0.1`, the marker
    /// header `X-Powered-By: Rust`, and a thirty-second timeout.
    pub fn standard() -> (r: ClientConfig)
        ensures
            r.user_agent@ == "httpie-lite/0.1"@,
            r.marker_name@ == "X-Powered-By"@,
            r.marker_value@ == "Rust"@,
            r.timeout_secs == DEFAULT_TIMEOUT_SECS,
    {
        ClientConfig {
            user_agent: String::from_str("httpie-lite/0.1"),
            marker_name: String::from_str("X-Powered-By"),
            marker_value: String::from_str("Rust"),
            timeout_secs: DEFAULT_TIMEOUT_SECS,
        }
    }

    /// The same configuration with another timeout.
    pub fn with_timeout(self, secs: u64) -> (r: ClientConfig)
        ensures
            r.user_agent == self.user_agent,
            r.marker_name == self.marker_name,
            r.marker_value == self.marker_value,
            r.timeout_secs == secs,
    {
        ClientConfig { timeout_secs: secs, ..self }
    }
}

} // verus!
