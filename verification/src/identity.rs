use vstd::prelude::*;

verus! {

/// A caller's public identifier, authenticated by the host before an
/// operation runs.
///
/// The host hands identifiers to the core as opaque 32-byte public keys;
/// the core only ever compares them for equality, so one is held here as
/// four 64-bit words.
#[derive(Clone, Copy, Debug, PartialEq, Eq, Structural)]
pub struct Identity {
    pub w0: u64,
    pub w1: u64,
    pub w2: u64,
    pub w3: u64,
}

} // verus!
