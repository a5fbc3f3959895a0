//! Creation of the per-collection instance record. Administrative
//! rights are established transitively: the supplied update authority
//! must be the one the collection's metadata record already names.
//! The host allocates the record at its deterministic address (and
//! fails hard if one already exists there); this module fixes the
//! record's size and its fully-initialized contents.

use vstd::prelude::*;
use crate::bitmap::{bit_of, whitelist_bytes, whitelist_bytes_spec, zero_bitmap};
use crate::error::DeBridgeError;
use crate::instance::{Instance, BASE_SIZE};
use crate::keys::Pubkey;
use crate::metadata::Metadata;

verus! {

/// The plain values the initialization instruction reads from its
/// accounts.
pub struct Initialize {
    /// Funds the record's allocation.
    pub payer: Pubkey,
    /// The claimed administrative identity.
    pub update_authority: Pubkey,
    /// The collection's underlying mint.
    pub collection_mint: Pubkey,
    /// The address of the collection's metadata record.
    pub collection_meta: Pubkey,
    /// The collection's metadata record itself.
    pub collection_meta_record: Metadata,
}

/// Bytes the record needs at creation: the fixed header plus the
/// trailing bitmap.
pub fn instance_space(collection_size: u16) -> (r: usize)
    ensures
        r == BASE_SIZE + whitelist_bytes_spec(collection_size),
{
    BASE_SIZE + whitelist_bytes(collection_size)
}

proof fn lemma_zero_byte_bit_clear(k: u16)
    by (bit_vector)
    ensures
        ((0u8 >> (k % 8)) & 1u8) != 1u8,
{
}

/// Build the fully-initialized instance record: unpaused, no
/// delegate, all whitelist bits clear, sized to `collection_size`.
/// Rejected when the metadata record's recorded update authority is
/// not the supplied one.
pub fn initialize(accs: &Initialize, collection_size: u16, bump: u8) -> (r: Result<
    Instance,
    DeBridgeError,
>)
    ensures
        accs.collection_meta_record.update_authority != accs.update_authority ==> r is Err
            && r->Err_0 == DeBridgeError::InvalidUpdateAuthority,
        accs.collection_meta_record.update_authority == accs.update_authority ==> r is Ok && {
            let inst = r->Ok_0;
            &&& inst.wf()
            &&& inst.bump == bump
            &&& inst.update_authority == accs.update_authority
            &&& inst.delegate is None
            &&& inst.collection_mint == accs.collection_mint
            &&& inst.collection_meta == accs.collection_meta
            &&& !inst.is_paused
            &&& inst.collection_size == collection_size
            &&& inst.whitelist@.len() == whitelist_bytes_spec(collection_size)
            &&& forall|id: u16|
                ((id / 8) as int) < inst.whitelist@.len() ==> !bit_of(inst.whitelist@, id)
        },
{
    if !(accs.collection_meta_record.update_authority == accs.update_authority) {
        return Err(DeBridgeError::InvalidUpdateAuthority);
    }
    let whitelist = zero_bitmap(whitelist_bytes(collection_size));
    proof {
        assert forall|id: u16| ((id / 8) as int) < whitelist@.len() implies !bit_of(
            whitelist@,
            id,
        ) by {
            lemma_zero_byte_bit_clear(id);
        }
    }
    Ok(
        Instance {
            bump,
            update_authority: accs.update_authority,
            delegate: None,
            collection_mint: accs.collection_mint,
            collection_meta: accs.collection_meta,
            is_paused: false,
            collection_size,
            whitelist,
        },
    )
}

} // verus!
