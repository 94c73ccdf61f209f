//! Daemon configuration that the library reads.

use vstd::prelude::*;

verus! {

/// Optional zenoh communication settings.
#[derive(Debug, Clone)]
pub struct ZenohConfig {
    /// Explicit peer endpoints (tcp/<ip>:<port>), e.g. ["tcp/192.168.1.20:7447"]
    pub peers: Vec<String>,
    /// Fixed listen port, e.g. "7447". Leave empty for random.
    pub listen: Option<String>,
}

impl Default for ZenohConfig {
    fn default() -> (c: Self)
        ensures
            c.peers@.len() == 0,
            c.listen is None,
    {
        ZenohConfig { peers: Vec::new(), listen: None }
    }
}

} // verus!
