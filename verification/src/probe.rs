//! Where a readiness probe connects to.
use vstd::prelude::*;

verus! {

/// The address of a probe: the loopback host and a port.
#[derive(Clone, Copy, Debug)]
pub struct ProbeTarget {
    /// The four parts of the host's address.
    pub host: (u8, u8, u8, u8),
    /// The port that is connected to.
    pub port: u16,
}

/// The port that a probe connects to. A port has sixteen bits; of a
/// larger number only the low sixteen bits count.
pub open spec fn probe_port_spec(port: u32) -> u16 {
    (port % 0x1_0000) as u16
}

/// The target of the probe of `port`: that port on `127.0.0.1`.
pub fn probe_target(port: u32) -> (r: ProbeTarget)
    ensures
        r.host == (127u8, 0u8, 0u8, 1u8),
        r.port == probe_port_spec(port),
        port <= u16::MAX ==> r.port == port,
{
    ProbeTarget { host: (127, 0, 0, 1), port: (port % 0x1_0000) as u16 }
}

} // verus!
