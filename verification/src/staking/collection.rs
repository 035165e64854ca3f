//! Which NFTs may be staked: those whose metadata names a collection that
//! is verified (and, when staking, is the expected collection).

use crate::keys::Pubkey;
use vstd::prelude::*;

verus! {

/// The collection that an NFT's metadata names, and whether the collection's
/// authority has verified the NFT as a member.
#[derive(Clone, Copy, Debug, PartialEq, Eq)]
pub struct Collection {
    pub verified: bool,
    pub key: Pubkey,
}

/// The account constraints of staking: the NFT's collection is `expected`,
/// and the NFT is verified as its member. The metadata must name a
/// collection; without one, the constraint panics.
pub fn stake_collection_ok(collection: &Option<Collection>, expected: &Pubkey) -> (r: bool)
    requires
        collection.is_some(),
    ensures
        r == (collection->Some_0.key == *expected && collection->Some_0.verified),
{
    match collection {
        Some(c) => c.key.key_eq(expected) && c.verified,
        None => false,
    }
}

/// The account constraint of unstaking: the NFT is a verified member of the
/// collection its metadata names. The metadata must name a collection;
/// without one, the constraint panics.
pub fn unstake_collection_ok(collection: &Option<Collection>) -> (r: bool)
    requires
        collection.is_some(),
    ensures
        r == collection->Some_0.verified,
{
    match collection {
        Some(c) => c.verified,
        None => false,
    }
}

} // verus!
