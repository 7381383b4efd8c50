use vstd::prelude::*;
use crate::error::TrackError;

verus! {

/// A relay that sends each event as one datagram to a UDP listener.
pub struct UdpRelay {
    remote_addrs: String,
}

/// The UDP relay.
pub type Udp = UdpRelay;

/// The address family of a resolved remote address.
#[derive(PartialEq, Eq, Structural, Clone, Copy, Debug)]
pub enum AddrFamily {
    V4,
    V6,
}

impl UdpRelay {
    /// The remote address this relay sends to, as it was given.
    pub closed spec fn spec_remote_addrs(&self) -> Seq<char> {
        self.remote_addrs@
    }

    /// A relay for the listener at `remote_addrs` (`host:port`); it is resolved
    /// each time the relay connects.
    pub fn new(remote_addrs: String) -> (r: UdpRelay)
        ensures
            r.spec_remote_addrs() == remote_addrs@,
    {
        UdpRelay { remote_addrs }
    }

    /// The remote address this relay sends to.
    pub fn remote_addrs(&self) -> (r: &str)
        ensures
            r@ == self.spec_remote_addrs(),
    {
        self.remote_addrs.as_str()
    }

    /// The local address to bind for an IPv4 remote: any interface, any port.
    pub fn local_addr_v4() -> (r: &'static str)
        ensures
            r@ == "0.0.0.0:0"@,
    {
        "0.0.0.0:0"
    }

    /// The local address to bind for an IPv6 remote: any interface, any port.
    pub fn local_addr_v6() -> (r: &'static str)
        ensures
            r@ == "[::]:0"@,
    {
        "[::]:0"
    }

    /// The local address to bind for the first of the resolved remote
    /// addresses, given by their families; the first one is the remote.
    pub fn local_addr_for(resolved: &[AddrFamily]) -> (r: Result<&'static str, TrackError>)
        ensures
            resolved@.len() == 0 ==> r matches Err(TrackError::NoRemoteAddr),
            resolved@.len() > 0 && resolved@[0] == AddrFamily::V4 ==> (r matches Ok(a) && a@
                == "0.0.0.0:0"@),
            resolved@.len() > 0 && resolved@[0] == AddrFamily::V6 ==> (r matches Ok(a) && a@
                == "[::]:0"@),
    {
        if resolved.len() == 0 {
            return Err(TrackError::NoRemoteAddr);
        }
        match resolved[0] {
            AddrFamily::V4 => Ok(UdpRelay::local_addr_v4()),
            AddrFamily::V6 => Ok(UdpRelay::local_addr_v6()),
        }
    }
}

} // verus!
