//! The per-collection configuration/state record: pause flag,
//! administrative identities, and the whitelist bitmap.

use vstd::prelude::*;
use crate::bitmap::{bit_of, get_bit, whitelist_bytes_spec, with_bit_clear, with_bit_set};
use crate::error::DeBridgeError;
use crate::keys::Pubkey;

verus! {

/// Bytes of the record ahead of the trailing whitelist vector: an
/// 8-byte record tag, the bump, three 32-byte identities (the delegate
/// with a 1-byte presence flag), the pause flag, the collection size,
/// and a 4-byte vector length.
pub const BASE_SIZE: usize = 8 + 1 + 32 + 33 + 32 + 32 + 1 + 2 + 4;

/// One configuration record per bridged collection.
pub struct Instance {
    /// Derivation nonce of the record's own deterministic address;
    /// fixed at creation.
    pub bump: u8,
    /// The identity permitted to perform administrative mutations.
    pub update_authority: Pubkey,
    /// Optional secondary identity additionally permitted to mutate
    /// the whitelist (not the pause flag or the delegate itself).
    pub delegate: Option<Pubkey>,
    /// The collection's underlying mint; never changes post-creation.
    pub collection_mint: Pubkey,
    /// The collection's metadata record; never changes post-creation.
    pub collection_meta: Pubkey,
    /// When true, burn-and-send is rejected unconditionally.
    pub is_paused: bool,
    /// Upper bound on valid token identifiers; `0` disables
    /// whitelisting entirely.
    pub collection_size: u16,
    /// The whitelist bitmap: `ceil(collection_size / 8)` bytes, bit
    /// `i` set means identifier `i` is eligible.
    pub whitelist: Vec<u8>,
}

/// Whether two instances agree on everything but the whitelist bitmap.
pub open spec fn same_config(a: Instance, b: Instance) -> bool {
    &&& a.bump == b.bump
    &&& a.update_authority == b.update_authority
    &&& a.delegate == b.delegate
    &&& a.collection_mint == b.collection_mint
    &&& a.collection_meta == b.collection_meta
    &&& a.is_paused == b.is_paused
    &&& a.collection_size == b.collection_size
}

impl Instance {
    /// The record's structural invariant: the bitmap is sized to the
    /// declared collection size.
    pub open spec fn wf(self) -> bool {
        self.whitelist@.len() == whitelist_bytes_spec(self.collection_size)
    }

    /// Whether `caller` may perform administrative mutations (pause,
    /// delegate replacement).
    pub open spec fn authorized_admin(self, caller: Pubkey) -> bool {
        caller == self.update_authority
    }

    /// Whether `caller` may mutate the whitelist: the update authority
    /// or the delegate, when one is set.
    pub open spec fn authorized_whitelister(self, caller: Pubkey) -> bool {
        caller == self.update_authority || self.delegate == Some(caller)
    }

    pub open spec fn whitelist_enabled_spec(self) -> bool {
        self.collection_size > 0
    }

    /// Whether the whitelist gate applies at all; false exactly when
    /// the collection size is zero, whatever the bitmap holds.
    pub fn whitelist_enabled(&self) -> (r: bool)
        ensures
            r == self.whitelist_enabled_spec(),
    {
        self.collection_size > 0
    }

    pub open spec fn is_whitelisted_spec(self, token_id: u16) -> bool {
        bit_of(self.whitelist@, token_id)
    }

    /// Whether `token_id` is eligible: its bit is set. Identifiers at
    /// or above the declared collection size are rejected.
    pub fn is_whitelisted(&self, token_id: u16) -> (r: Result<bool, DeBridgeError>)
        requires
            self.wf(),
        ensures
            token_id < self.collection_size ==> r == Ok::<bool, DeBridgeError>(
                self.is_whitelisted_spec(token_id),
            ),
            token_id >= self.collection_size ==> r == Err::<bool, DeBridgeError>(
                DeBridgeError::TokenIdOutOfBounds,
            ),
    {
        if token_id >= self.collection_size {
            return Err(DeBridgeError::TokenIdOutOfBounds);
        }
        proof {
            lemma_id_byte_in_bitmap(token_id, self.collection_size);
        }
        Ok(get_bit(&self.whitelist, token_id))
    }

    /// Set the bit of `token_id`; an identifier at or above the
    /// declared collection size is rejected with no bit mutated.
    pub fn set_bit(&mut self, token_id: u16) -> (r: Result<(), DeBridgeError>)
        requires
            old(self).wf(),
        ensures
            final(self).wf(),
            same_config(*final(self), *old(self)),
            token_id >= old(self).collection_size ==> r == Err::<(), DeBridgeError>(
                DeBridgeError::TokenIdOutOfBounds,
            ) && final(self).whitelist@ == old(self).whitelist@,
            token_id < old(self).collection_size ==> r == Ok::<(), DeBridgeError>(())
                && final(self).whitelist@ == with_bit_set(old(self).whitelist@, token_id),
    {
        if token_id >= self.collection_size {
            return Err(DeBridgeError::TokenIdOutOfBounds);
        }
        proof {
            lemma_id_byte_in_bitmap(token_id, self.collection_size);
        }
        crate::bitmap::set_bit(&mut self.whitelist, token_id);
        Ok(())
    }

    /// Clear the bit of `token_id`; an identifier at or above the
    /// declared collection size is rejected with no bit mutated.
    pub fn clear_bit(&mut self, token_id: u16) -> (r: Result<(), DeBridgeError>)
        requires
            old(self).wf(),
        ensures
            final(self).wf(),
            same_config(*final(self), *old(self)),
            token_id >= old(self).collection_size ==> r == Err::<(), DeBridgeError>(
                DeBridgeError::TokenIdOutOfBounds,
            ) && final(self).whitelist@ == old(self).whitelist@,
            token_id < old(self).collection_size ==> r == Ok::<(), DeBridgeError>(())
                && final(self).whitelist@ == with_bit_clear(old(self).whitelist@, token_id),
    {
        if token_id >= self.collection_size {
            return Err(DeBridgeError::TokenIdOutOfBounds);
        }
        proof {
            lemma_id_byte_in_bitmap(token_id, self.collection_size);
        }
        crate::bitmap::clear_bit(&mut self.whitelist, token_id);
        Ok(())
    }
}

/// The authority lattice behind the four administrative instructions:
/// exactly the update authority may administer (pause, delegate
/// replacement); every administrator may mutate the whitelist; the
/// delegate may mutate the whitelist but, unless it is the update
/// authority itself, may not administer.
pub proof fn lemma_authority_separation(instance: Instance, caller: Pubkey)
    ensures
        instance.authorized_admin(caller) <==> caller == instance.update_authority,
        instance.authorized_admin(caller) ==> instance.authorized_whitelister(caller),
        instance.delegate == Some(caller) ==> instance.authorized_whitelister(caller),
        instance.authorized_whitelister(caller) && caller != instance.update_authority
            ==> instance.delegate == Some(caller) && !instance.authorized_admin(caller),
{
}

/// The fixed seed prefix (the ASCII bytes of `instance`) from which,
/// together with the collection mint, the record's deterministic
/// address is derived. Any client can recompute the address from
/// these inputs without an on-chain lookup.
pub fn instance_seed_prefix() -> (r: [u8; 8])
    ensures
        r@ == seq![105u8, 110u8, 115u8, 116u8, 97u8, 110u8, 99u8, 101u8],
{
    let r: [u8; 8] = [105, 110, 115, 116, 97, 110, 99, 101];
    proof {
        assert(r@ =~= seq![105u8, 110u8, 115u8, 116u8, 97u8, 110u8, 99u8, 101u8]);
    }
    r
}

/// An identifier below the collection size indexes a byte inside the
/// `ceil(collection_size / 8)`-byte bitmap.
pub proof fn lemma_id_byte_in_bitmap(token_id: u16, collection_size: u16)
    by (bit_vector)
    requires
        token_id < collection_size,
    ensures
        token_id / 8 < (collection_size + 7) / 8,
{
}

} // verus!
