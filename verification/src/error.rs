//! Error taxonomy of the bridge controller. Every failure aborts the
//! whole instruction; none is retried or downgraded.

use vstd::prelude::*;

verus! {

/// Why an instruction was rejected.
#[derive(Clone, Copy, Debug, PartialEq, Eq, Structural)]
pub enum DeBridgeError {
    /// The caller is not permitted to perform this mutation.
    NotAuthorized,
    /// The collection metadata record's recorded update authority does
    /// not match the supplied one at initialization.
    InvalidUpdateAuthority,
    /// The instance is paused; burn-and-send is rejected unconditionally.
    InstancePaused,
    /// The supplied collection metadata account is not the one this
    /// instance records.
    CollectionMetaMismatch,
    /// The NFT metadata's token standard is missing or is neither
    /// non-fungible nor programmable-non-fungible.
    InvalidTokenStandard,
    /// The NFT metadata carries no verified collection reference.
    CollectionNotVerified,
    /// The verified collection reference names a different collection
    /// than this instance records.
    CollectionMismatch,
    /// The metadata URI holds no parseable token identifier.
    MalformedUri,
    /// A token identifier at or above the declared collection size.
    TokenIdOutOfBounds,
    /// A bulk whitelist write past the end of the bitmap.
    WhitelistRangeOutOfBounds,
    /// The token identifier has not been whitelisted.
    NotYetWhitelisted,
}

} // verus!
