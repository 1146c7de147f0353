//! What a TCP transport decides without touching the network.

use vstd::prelude::*;
use crate::error::Error;

verus! {

/// How long a read on a TCP transport waits for data, in milliseconds. Every
/// TCP transport is opened with this limit.
pub const DEFAULT_TIMEOUT_MILLIS: u64 = 500;

/// The name of a TCP transport, given the text of its peer's address or the
/// failure to look it up: a fixed prefix followed by that text. A failed
/// lookup leaves the place of the address empty.
pub open spec fn interface_name_spec(peer: Result<String, Error>) -> Seq<char> {
    "PTouch TCP interface on "@ + match peer {
        Ok(address) => address@,
        Err(_) => Seq::<char>::empty(),
    }
}

/// Builds the name of a TCP transport.
pub fn interface_name(peer: Result<String, Error>) -> (name: String)
    ensures
        name@ == interface_name_spec(peer),
{
    let mut name = String::from_str("PTouch TCP interface on ");
    match peer {
        Ok(address) => {
            name.append(address.as_str());
        },
        Err(_) => {},
    }
    name
}

} // verus!
