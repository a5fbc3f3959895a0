//! The burn-and-send protocol core: gate on the pause flag, prove
//! collection membership, extract the token identifier from the
//! metadata URI, gate on the whitelist, and describe the two
//! cross-program calls (the burn, then the message post, with the
//! bridge fee settled in between when it is nonzero). The host
//! performs the calls in that order; every failure here aborts the
//! whole operation before any call is issued.

use vstd::prelude::*;
use crate::bitmap::bit_of;
use crate::error::DeBridgeError;
use crate::instance::Instance;
use crate::keys::{EvmAddress, Pubkey};
use crate::message::{message_bytes, serialize_message, Finality};
use crate::metadata::{proves_membership, standard_bridgeable, Metadata, TokenStandard};
use crate::uri::token_id_of_uri;

verus! {

/// The plain values the burn-and-send instruction reads from its
/// accounts. The metadata, token and bridge programs re-validate the
/// account relationships themselves when invoked.
pub struct BurnAndSend {
    /// The collection's configuration record.
    pub instance: Instance,
    /// Pays the bridge fee, when one is due.
    pub payer: Pubkey,
    /// The NFT holder authorizing the burn.
    pub nft_owner: Pubkey,
    /// The holder's token account.
    pub nft_token: Pubkey,
    /// The NFT's mint.
    pub nft_mint: Pubkey,
    /// The address of the NFT's metadata record.
    pub nft_meta_key: Pubkey,
    /// The NFT's metadata record itself.
    pub nft_meta: Metadata,
    /// The NFT's master edition account.
    pub nft_master_edition: Pubkey,
    /// The supplied collection metadata account.
    pub collection_meta: Pubkey,
    /// The NFT's token record account (consulted only for
    /// programmable non-fungibles).
    pub token_record: Pubkey,
    /// The core bridge's current per-message fee.
    pub bridge_fee: u64,
}

/// The accounts and amount of the burn call into the metadata
/// program. `token_record` is filled only for a programmable
/// non-fungible; for a plain non-fungible the host fills that
/// positional slot with the metadata program's own identifier, per
/// that program's optional-account convention.
pub struct BurnInvocation {
    pub authority: Pubkey,
    pub collection_metadata: Pubkey,
    pub metadata: Pubkey,
    pub edition: Pubkey,
    pub mint: Pubkey,
    pub token: Pubkey,
    pub token_record: Option<Pubkey>,
    pub amount: u64,
}

/// Everything the host must carry out, in order: the burn, the fee
/// transfer when one is due, and the message post at finalized
/// durability.
pub struct BurnAndSendOutcome {
    /// The identifier parsed from the metadata URI.
    pub token_id: u16,
    /// The burn call to issue first.
    pub burn: BurnInvocation,
    /// The amount to move from the payer to the bridge's fee
    /// collector before posting; none when the fee is zero.
    pub fee_payment: Option<u64>,
    /// Opaque sequencing hint, passed through unvalidated.
    pub batch_id: u32,
    /// The 22-byte wire payload.
    pub message: Vec<u8>,
    /// Always the strongest level: the message must not be emitted
    /// with less than ledger finality.
    pub finality: Finality,
}

/// The error burn-and-send must reject with, checked in protocol
/// order; `None` when every gate passes.
pub open spec fn burn_gate_error(accs: BurnAndSend) -> Option<DeBridgeError> {
    if accs.instance.is_paused {
        Some(DeBridgeError::InstancePaused)
    } else if !standard_bridgeable(accs.nft_meta.token_standard) {
        Some(DeBridgeError::InvalidTokenStandard)
    } else if !(accs.nft_meta.collection is Some && accs.nft_meta.collection->Some_0.verified) {
        Some(DeBridgeError::CollectionNotVerified)
    } else if accs.nft_meta.collection->Some_0.key != accs.instance.collection_mint {
        Some(DeBridgeError::CollectionMismatch)
    } else if accs.collection_meta != accs.instance.collection_meta {
        Some(DeBridgeError::CollectionMetaMismatch)
    } else if token_id_of_uri(accs.nft_meta.uri@) is None {
        Some(DeBridgeError::MalformedUri)
    } else if accs.instance.whitelist_enabled_spec() && token_id_of_uri(accs.nft_meta.uri@)->Some_0
        >= accs.instance.collection_size {
        Some(DeBridgeError::TokenIdOutOfBounds)
    } else if accs.instance.whitelist_enabled_spec() && !bit_of(
        accs.instance.whitelist@,
        token_id_of_uri(accs.nft_meta.uri@)->Some_0,
    ) {
        Some(DeBridgeError::NotYetWhitelisted)
    } else {
        None
    }
}

/// Validate eligibility and describe the operation. Errors exactly
/// when a gate fails (`burn_gate_error`), and then no call is issued;
/// on success the outcome pins every value handed to the external
/// programs, and implies the NFT proved membership of the instance's
/// collection.
pub fn burn_and_send(accs: &BurnAndSend, batch_id: u32, evm_recipient: &EvmAddress) -> (r: Result<
    BurnAndSendOutcome,
    DeBridgeError,
>)
    requires
        accs.instance.wf(),
    ensures
        r is Err <==> burn_gate_error(*accs) is Some,
        r is Err ==> Some(r->Err_0) == burn_gate_error(*accs),
        r is Ok ==> {
            let out = r->Ok_0;
            let token_id = token_id_of_uri(accs.nft_meta.uri@)->Some_0;
            &&& proves_membership(accs.nft_meta, accs.instance.collection_mint)
            &&& !accs.instance.is_paused
            &&& accs.instance.whitelist_enabled_spec() ==> token_id
                < accs.instance.collection_size && accs.instance.is_whitelisted_spec(token_id)
            &&& out.token_id == token_id
            &&& out.burn == (BurnInvocation {
                authority: accs.nft_owner,
                collection_metadata: accs.collection_meta,
                metadata: accs.nft_meta_key,
                edition: accs.nft_master_edition,
                mint: accs.nft_mint,
                token: accs.nft_token,
                token_record: if accs.nft_meta.token_standard == Some(
                    TokenStandard::ProgrammableNonFungible,
                ) {
                    Some(accs.token_record)
                } else {
                    None
                },
                amount: 1u64,
            })
            &&& out.fee_payment == (if accs.bridge_fee > 0 {
                Some(accs.bridge_fee)
            } else {
                None::<u64>
            })
            &&& out.batch_id == batch_id
            &&& out.message@ == message_bytes(token_id, evm_recipient@)
            &&& out.finality == Finality::Finalized
        },
{
    // Gate: a paused instance rejects unconditionally.
    if accs.instance.is_paused {
        return Err(DeBridgeError::InstancePaused);
    }

    // Collection-membership proof. Every other account relationship
    // is enforced by the metadata program during the burn call.
    let is_pnft = match accs.nft_meta.token_standard {
        Some(TokenStandard::ProgrammableNonFungible) => true,
        Some(TokenStandard::NonFungible) => false,
        _ => {
            return Err(DeBridgeError::InvalidTokenStandard);
        },
    };
    let collection_key = match &accs.nft_meta.collection {
        Some(c) => {
            if !c.verified {
                return Err(DeBridgeError::CollectionNotVerified);
            }
            c.key
        },
        None => {
            return Err(DeBridgeError::CollectionNotVerified);
        },
    };
    if collection_key != accs.instance.collection_mint {
        return Err(DeBridgeError::CollectionMismatch);
    }
    if accs.collection_meta != accs.instance.collection_meta {
        return Err(DeBridgeError::CollectionMetaMismatch);
    }

    // Token identifier extraction from the metadata URI.
    let token_id = match crate::uri::parse_token_id(&accs.nft_meta.uri) {
        Some(id) => id,
        None => {
            return Err(DeBridgeError::MalformedUri);
        },
    };

    // Whitelist gate, when whitelisting is enabled.
    if accs.instance.whitelist_enabled() {
        match accs.instance.is_whitelisted(token_id) {
            Err(e) => {
                return Err(e);
            },
            Ok(false) => {
                return Err(DeBridgeError::NotYetWhitelisted);
            },
            Ok(true) => {},
        }
    }

    let message = serialize_message(token_id, evm_recipient);
    Ok(
        BurnAndSendOutcome {
            token_id,
            burn: BurnInvocation {
                authority: accs.nft_owner,
                collection_metadata: accs.collection_meta,
                metadata: accs.nft_meta_key,
                edition: accs.nft_master_edition,
                mint: accs.nft_mint,
                token: accs.nft_token,
                token_record: if is_pnft {
                    Some(accs.token_record)
                } else {
                    None
                },
                amount: 1u64,
            },
            fee_payment: if accs.bridge_fee > 0 {
                Some(accs.bridge_fee)
            } else {
                None
            },
            batch_id,
            message,
            finality: Finality::Finalized,
        },
    )
}

} // verus!
