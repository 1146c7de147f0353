//! Network endpoints as plain numbers.

use vstd::prelude::*;
use crate::error::Error;

verus! {

/// An IP address.
///
/// `V4` holds the four octets as one number, the first octet in the most
/// significant byte; `V6` holds the sixteen octets in the same way.
#[derive(Clone, Copy, Debug, PartialEq, Eq, Hash, Structural)]
pub enum IpAddress {
    V4(u32),
    V6(u128),
}

/// One endpoint that an address resolved to.
#[derive(Clone, Copy, Debug, PartialEq, Eq, Hash, Structural)]
pub struct SocketAddress {
    pub ip: IpAddress,
    pub port: u16,
}

/// The IP address that a handle records for an address resolution: that of
/// the first endpoint, if the resolution succeeded and gave one.
pub open spec fn resolved_ip(resolved: Result<Vec<SocketAddress>, Error>) -> Option<IpAddress> {
    match resolved {
        Ok(endpoints) => if endpoints@.len() > 0 {
            Some(endpoints@[0].ip)
        } else {
            None
        },
        Err(_) => None,
    }
}

/// Picks the IP address of the first endpoint. A failed resolution and one
/// without endpoints both give `None`: neither is an error here.
pub fn first_ip(resolved: &Result<Vec<SocketAddress>, Error>) -> (ip: Option<IpAddress>)
    ensures
        ip == resolved_ip(*resolved),
{
    match resolved {
        Ok(endpoints) => if endpoints.len() > 0 {
            Some(endpoints[0].ip)
        } else {
            None
        },
        Err(_) => None,
    }
}

} // verus!
