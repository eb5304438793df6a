//! Where the dashboard is served.
use vstd::prelude::*;

verus! {

/// The first port that the dashboard tries.
pub const DEFAULT_DASHBOARD_PORT: u16 = 8787;

/// How many ports the dashboard tries.
pub const DASHBOARD_PORTS: u16 = 100;

/// The port that the dashboard tries after that many others, if any is left.
pub fn dashboard_port(tried: u16) -> (r: Option<u16>)
    ensures
        match r {
            Some(port) => tried < DASHBOARD_PORTS && port == DEFAULT_DASHBOARD_PORT + tried,
            None => tried >= DASHBOARD_PORTS,
        },
        r is Some <==> tried < 100,
        r matches Some(port) ==> port == 8787 + tried,
{
    if tried < DASHBOARD_PORTS {
        Some(DEFAULT_DASHBOARD_PORT + tried)
    } else {
        None
    }
}

} // verus!
