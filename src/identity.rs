//! Account identities: 160-bit addresses.
use vstd::prelude::*;

verus! {

/// A 20-byte account address: `hi` holds the four most significant bytes and
/// `lo` the sixteen least significant ones.
#[derive(Clone, Copy, Debug, PartialEq, Eq, Structural)]
pub struct Identity {
    pub hi: u32,
    pub lo: u128,
}

} // verus!
