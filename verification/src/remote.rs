//! Configuration of the optional remote monitoring agent. The agent's
//! server itself is outside the dashboard core; only its configuration
//! and address derivation live here.

use vstd::prelude::*;
use vstd::string::*;
use crate::utils;

verus! {

/// Where the remote agent listens, and the token it expects.
pub struct RemoteConfig {
    pub bind: String,
    pub port: u16,
    pub token: String,
}

impl RemoteConfig {
    /// The socket address the agent binds: `<bind>:<port>`.
    pub fn address(&self) -> (r: String)
        ensures
            r@ == self.bind@ + ":"@ + utils::dec_str(self.port as int),
    {
        let mut s = self.bind.clone();
        s.append(":");
        let port_s = utils::u64_to_string(self.port as u64);
        s.append(port_s.as_str());
        s
    }
}

} // verus!
