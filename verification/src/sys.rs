//! The system collaborators: wall clock, entropy source and
//! network-address lookup, each behind a single trusted wrapper. A
//! wrapper's result depends on the machine or the moment, so nothing more
//! is promised of it than its shape; a collaborator that cannot answer
//! says so with `None` rather than aborting or handing back a fixed value.

use vstd::prelude::*;

use crate::Node;

verus! {

/// Relies on std's `SystemTime::now` and `duration_since`: the current
/// wall-clock time as whole nanoseconds since the Unix epoch, or `None`
/// when the clock stands before the epoch or the count does not fit the
/// container. The value depends on the moment of the call, so nothing is
/// promised of it.
#[verifier::external_body]
pub(crate) fn unix_nanos_now() -> Option<u64> {
    match std::time::SystemTime::now().duration_since(std::time::UNIX_EPOCH) {
        Ok(elapsed) => u64::try_from(elapsed.as_nanos()).ok(),
        Err(_) => None,
    }
}

/// Relies on nanorand's `entropy::system`: 128 bits read from the
/// operating system's entropy source, or `None` when the source reports
/// failure. The value is random, so nothing is promised of it.
#[verifier::external_body]
pub(crate) fn entropy_u128() -> Option<u128> {
    let mut buf = [0u8; 16];
    if nanorand::entropy::system(&mut buf) {
        Some(u128::from_le_bytes(buf))
    } else {
        None
    }
}

/// Relies on mac_address's `get_mac_address` and `MacAddress::bytes`: the
/// six-byte address of a network interface of this machine, or `None` when
/// the platform reports none. The value depends on the machine, so nothing
/// is promised of it.
#[verifier::external_body]
pub(crate) fn mac_address_bytes() -> Option<[u8; 6]> {
    match mac_address::get_mac_address() {
        Ok(Some(address)) => Some(address.bytes()),
        _ => None,
    }
}

impl Node {
    /// The address of a network interface of this machine, if the platform
    /// offers one.
    pub fn from_system() -> Option<Node> {
        match mac_address_bytes() {
            Some(bytes) => Some(Node(bytes)),
            None => None,
        }
    }
}

} // verus!
