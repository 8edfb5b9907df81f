//! Connection parameters for one run: scheme-qualified server base
//! URL, API key, and the poll-loop bound.

use vstd::prelude::*;
use vstd::string::StringExecFns;

verus! {

/// Immutable once constructed; owned by the orchestration flow for
/// the duration of one export run.
pub struct Connection {
    /// Scheme-qualified base URL, e.g. `https://wiki.example.com`.
    pub server: String,
    /// Bearer token sent with every API call.
    pub apikey: String,
    /// Number of poll iterations allowed before the run times out.
    pub timeout: u64,
}

impl Connection {
    /// A usable connection: a non-empty server string and a positive
    /// poll bound, as the configuration provider must supply them.
    pub open spec fn wf(self) -> bool {
        self.server@.len() > 0 && self.timeout > 0
    }

    /// Builds the connection from configured values: the scheme flag
    /// picks `https` or `http`, and the base URL is scheme + host.
    pub fn new(host: String, secure: bool, apikey: String, timeout: u64) -> (r: Connection)
        requires
            host@.len() > 0,
            timeout > 0,
        ensures
            secure ==> r.server@ == "https://"@ + host@,
            !secure ==> r.server@ == "http://"@ + host@,
            r.apikey@ == apikey@,
            r.timeout == timeout,
            r.wf(),
    {
        let scheme = if secure {
            "https://"
        } else {
            "http://"
        };
        let server = String::from_str(scheme).concat(host.as_str());
        proof {
            reveal_strlit("https://");
            reveal_strlit("http://");
        }
        Connection { server, apikey, timeout }
    }
}

} // verus!
