//! Plain-value model of the fields this controller reads from a
//! token-metadata record. The metadata program owns and validates the
//! record itself; the host deserializes it and hands these fields in.

use vstd::prelude::*;
use crate::keys::Pubkey;

verus! {

/// The token standard recorded in a metadata record.
#[derive(Clone, Copy, Debug, PartialEq, Eq, Structural)]
pub enum TokenStandard {
    NonFungible,
    FungibleAsset,
    Fungible,
    NonFungibleEdition,
    ProgrammableNonFungible,
}

/// A metadata record's reference to the collection it belongs to.
#[derive(Clone, Copy, Debug, PartialEq, Eq, Structural)]
pub struct Collection {
    /// Whether the metadata program has verified the membership.
    pub verified: bool,
    /// The mint of the collection the record claims membership in.
    pub key: Pubkey,
}

/// The fields of a token-metadata record that this controller reads.
pub struct Metadata {
    /// The identity permitted to update the record; at initialization
    /// it becomes the instance's administrative authority.
    pub update_authority: Pubkey,
    /// The collection reference, if the record carries one.
    pub collection: Option<Collection>,
    /// The token standard, if the record carries one.
    pub token_standard: Option<TokenStandard>,
    /// The metadata URI, as its raw bytes (on chain it is a
    /// right-padded byte string).
    pub uri: Vec<u8>,
}

/// Whether a metadata record proves membership of the collection with
/// mint `collection_mint`: the standard is non-fungible or
/// programmable-non-fungible, and the record carries a verified
/// collection reference naming that mint.
pub open spec fn proves_membership(md: Metadata, collection_mint: Pubkey) -> bool {
    &&& standard_bridgeable(md.token_standard)
    &&& md.collection is Some
    &&& md.collection->Some_0.verified
    &&& md.collection->Some_0.key == collection_mint
}

/// Whether a recorded token standard admits bridging.
pub open spec fn standard_bridgeable(ts: Option<TokenStandard>) -> bool {
    ts == Some(TokenStandard::NonFungible) || ts == Some(TokenStandard::ProgrammableNonFungible)
}

} // verus!
