use vstd::prelude::*;

pub mod identity;
pub mod round;
pub mod seed;
pub mod threshold;
pub mod votes;

verus! {

/// Width in bytes of a participant identifier and of every round seed.
pub const HASH_SIZE: usize = 16;

/// Opaque fixed-width byte handle for a participant, derived from a public key.
pub type VoterId = Vec<u8>;

/// The byte sequences that a list of byte vectors holds, in order.
pub open spec fn byte_views(s: Seq<Vec<u8>>) -> Seq<Seq<u8>> {
    s.map_values(|v: Vec<u8>| v@)
}

} // verus!
