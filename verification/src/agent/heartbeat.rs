//! The stand-alone heartbeat client (the heartbeat itself is sent by the
//! WebSocket loop).
use vstd::prelude::*;

verus! {

/// The heartbeat client; it holds no state.
pub struct HeartbeatClient;

impl HeartbeatClient {
    /// A heartbeat client.
    pub fn new() -> (c: Self)
        ensures
            c == HeartbeatClient,
    {
        HeartbeatClient
    }
}

} // verus!
