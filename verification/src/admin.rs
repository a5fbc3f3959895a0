//! Administrative instructions: whitelist mutation (single identifiers
//! and bulk byte ranges), delegate replacement, and the pause flag.
//!
//! Pause and delegate changes demand the update authority; whitelist
//! mutations also admit the delegate. A batch that names any
//! identifier out of range is rejected whole, with no bit mutated.

use vstd::prelude::*;
use crate::bitmap::{
    bit_of, lemma_with_bits_set_effect, set_bit, set_range, with_bits_set, with_range,
};
use crate::error::DeBridgeError;
use crate::instance::{lemma_id_byte_in_bitmap, same_config, Instance};
use crate::keys::Pubkey;

verus! {

/// Whether every identifier in `ids` is below the declared size.
pub open spec fn all_in_range(ids: Seq<u16>, collection_size: u16) -> bool {
    forall|i: int| 0 <= i < ids.len() ==> #[trigger] ids[i] < collection_size
}

fn caller_may_whitelist(instance: &Instance, caller: &Pubkey) -> (r: bool)
    ensures
        r == instance.authorized_whitelister(*caller),
{
    *caller == instance.update_authority || (match &instance.delegate {
        Some(d) => *d == *caller,
        None => false,
    })
}

/// Set the bit of each identifier in `token_ids`. All-or-nothing: an
/// unauthorized caller or any identifier at or above the collection
/// size aborts the call with no bit mutated.
#[verifier::loop_isolation(false)]
pub fn whitelist(instance: &mut Instance, caller: Pubkey, token_ids: Vec<u16>) -> (r: Result<
    (),
    DeBridgeError,
>)
    requires
        old(instance).wf(),
    ensures
        final(instance).wf(),
        same_config(*final(instance), *old(instance)),
        !old(instance).authorized_whitelister(caller) ==> r == Err::<(), DeBridgeError>(
            DeBridgeError::NotAuthorized,
        ) && final(instance).whitelist@ == old(instance).whitelist@,
        old(instance).authorized_whitelister(caller) && !all_in_range(
            token_ids@,
            old(instance).collection_size,
        ) ==> r == Err::<(), DeBridgeError>(DeBridgeError::TokenIdOutOfBounds)
            && final(instance).whitelist@ == old(instance).whitelist@,
        old(instance).authorized_whitelister(caller) && all_in_range(
            token_ids@,
            old(instance).collection_size,
        ) ==> r == Ok::<(), DeBridgeError>(()) && final(instance).whitelist@ == with_bits_set(
            old(instance).whitelist@,
            token_ids@,
        ),
        r is Ok ==> forall|id2: u16|
            ((id2 / 8) as int) < old(instance).whitelist@.len() ==> bit_of(
                final(instance).whitelist@,
                id2,
            ) == (bit_of(old(instance).whitelist@, id2) || token_ids@.contains(id2)),
{
    if !caller_may_whitelist(instance, &caller) {
        return Err(DeBridgeError::NotAuthorized);
    }
    let ghost orig = *instance;

    // Validate the whole batch before mutating anything, so that a
    // mixed batch leaves the bitmap untouched.
    let mut i: usize = 0;
    while i < token_ids.len()
        invariant
            i <= token_ids@.len(),
            forall|j: int| 0 <= j < i ==> #[trigger] token_ids@[j] < instance.collection_size,
        decreases token_ids@.len() - i,
    {
        if token_ids[i] >= instance.collection_size {
            return Err(DeBridgeError::TokenIdOutOfBounds);
        }
        i += 1;
    }

    let mut i: usize = 0;
    while i < token_ids.len()
        invariant
            i <= token_ids@.len(),
            instance.wf(),
            same_config(*instance, orig),
            orig.wf(),
            all_in_range(token_ids@, orig.collection_size),
            instance.whitelist@ == with_bits_set(orig.whitelist@, token_ids@.take(i as int)),
        decreases token_ids@.len() - i,
    {
        let id = token_ids[i];
        proof {
            lemma_id_byte_in_bitmap(id, orig.collection_size);
            assert(token_ids@.take(i + 1).drop_last() =~= token_ids@.take(i as int));
            assert(token_ids@.take(i + 1).last() == id);
        }
        set_bit(&mut instance.whitelist, id);
        i += 1;
    }
    proof {
        assert(token_ids@.take(token_ids@.len() as int) =~= token_ids@);
        assert forall|j: int| 0 <= j < token_ids@.len() implies ((#[trigger] token_ids@[j]
            / 8) as int) < orig.whitelist@.len() by {
            lemma_id_byte_in_bitmap(token_ids@[j], orig.collection_size);
        }
        lemma_with_bits_set_effect(orig.whitelist@, token_ids@);
    }
    Ok(())
}

/// Overwrite the byte range of the bitmap starting at `offset` with
/// `slice` verbatim. A range reaching past the end of the bitmap, or
/// an unauthorized caller, aborts the call with no byte mutated.
#[verifier::loop_isolation(false)]
pub fn whitelist_bulk(instance: &mut Instance, caller: Pubkey, offset: u16, slice: Vec<u8>) -> (r:
    Result<(), DeBridgeError>)
    requires
        old(instance).wf(),
    ensures
        final(instance).wf(),
        same_config(*final(instance), *old(instance)),
        !old(instance).authorized_whitelister(caller) ==> r == Err::<(), DeBridgeError>(
            DeBridgeError::NotAuthorized,
        ) && final(instance).whitelist@ == old(instance).whitelist@,
        old(instance).authorized_whitelister(caller) && offset + slice@.len() > old(
            instance,
        ).whitelist@.len() ==> r == Err::<(), DeBridgeError>(
            DeBridgeError::WhitelistRangeOutOfBounds,
        ) && final(instance).whitelist@ == old(instance).whitelist@,
        old(instance).authorized_whitelister(caller) && offset + slice@.len() <= old(
            instance,
        ).whitelist@.len() ==> r == Ok::<(), DeBridgeError>(()) && final(instance).whitelist@
            == with_range(old(instance).whitelist@, offset as int, slice@),
{
    if !caller_may_whitelist(instance, &caller) {
        return Err(DeBridgeError::NotAuthorized);
    }
    let wl_len = instance.whitelist.len();
    if (offset as usize) > wl_len || slice.len() > wl_len - (offset as usize) {
        return Err(DeBridgeError::WhitelistRangeOutOfBounds);
    }
    set_range(&mut instance.whitelist, offset as usize, &slice);
    Ok(())
}

/// Replace (or clear) the delegate. Only the update authority may.
pub fn set_delegate(instance: &mut Instance, caller: Pubkey, delegate: Option<Pubkey>) -> (r:
    Result<(), DeBridgeError>)
    requires
        old(instance).wf(),
    ensures
        final(instance).wf(),
        !old(instance).authorized_admin(caller) ==> r == Err::<(), DeBridgeError>(
            DeBridgeError::NotAuthorized,
        ) && *final(instance) == *old(instance),
        old(instance).authorized_admin(caller) ==> r == Ok::<(), DeBridgeError>(())
            && *final(instance) == (Instance { delegate, ..*old(instance) }),
        final(instance).whitelist@ == old(instance).whitelist@,
{
    if !(caller == instance.update_authority) {
        return Err(DeBridgeError::NotAuthorized);
    }
    instance.delegate = delegate;
    Ok(())
}

/// Overwrite the pause flag. Only the update authority may.
pub fn set_paused(instance: &mut Instance, caller: Pubkey, is_paused: bool) -> (r: Result<
    (),
    DeBridgeError,
>)
    requires
        old(instance).wf(),
    ensures
        final(instance).wf(),
        !old(instance).authorized_admin(caller) ==> r == Err::<(), DeBridgeError>(
            DeBridgeError::NotAuthorized,
        ) && *final(instance) == *old(instance),
        old(instance).authorized_admin(caller) ==> r == Ok::<(), DeBridgeError>(())
            && *final(instance) == (Instance { is_paused, ..*old(instance) }),
        final(instance).whitelist@ == old(instance).whitelist@,
{
    if !(caller == instance.update_authority) {
        return Err(DeBridgeError::NotAuthorized);
    }
    instance.is_paused = is_paused;
    Ok(())
}

} // verus!
