//! Endpoint and store configuration handed to the protocol at construction,
//! so that tests can point the flow at stub endpoints.

use vstd::prelude::*;

verus! {

/// Where the two remote collaborators live and how the session cookie is
/// addressed: the identity-issuing service, the confirmation broker, the
/// host and name under which the session cookie is stored, and the path of
/// the persistence file.
pub struct Config {
    /// Base URL of the identity-issuing service (login, claim, whoami).
    pub rpc_addr: String,
    /// Base URL of the confirmation broker (confirm).
    pub broker_addr: String,
    /// Host under which the session cookie is scoped in the jar.
    pub rpc_endpoint: String,
    /// Name of the session cookie.
    pub session_cookie_name: String,
    /// Path of the persisted cookie jar file.
    pub cookies_path: String,
}

impl Config {
    pub fn new(
        rpc_addr: String,
        broker_addr: String,
        rpc_endpoint: String,
        session_cookie_name: String,
        cookies_path: String,
    ) -> (r: Config)
        ensures
            r.rpc_addr@ == rpc_addr@,
            r.broker_addr@ == broker_addr@,
            r.rpc_endpoint@ == rpc_endpoint@,
            r.session_cookie_name@ == session_cookie_name@,
            r.cookies_path@ == cookies_path@,
    {
        Config { rpc_addr, broker_addr, rpc_endpoint, session_cookie_name, cookies_path }
    }
}

} // verus!
