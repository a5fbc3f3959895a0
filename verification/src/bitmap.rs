//! Packed bit-set over the token-identifier space, stored as a byte
//! vector. Bit `i` (0-indexed, least-significant bit first within each
//! byte) set means token identifier `i` is eligible for bridging.

use vstd::prelude::*;

verus! {

/// Number of bytes needed to hold one bit per identifier below
/// `collection_size`: `ceil(collection_size / 8)`.
pub open spec fn whitelist_bytes_spec(collection_size: u16) -> int {
    (collection_size + 7) / 8
}

/// Whether bit `id` of the bitmap is set.
pub open spec fn bit_of(bm: Seq<u8>, id: u16) -> bool {
    ((bm[(id / 8) as int] >> (id % 8)) & 1u8) == 1u8
}

/// The bitmap with bit `id` set and every other bit unchanged.
pub open spec fn with_bit_set(bm: Seq<u8>, id: u16) -> Seq<u8> {
    bm.update((id / 8) as int, bm[(id / 8) as int] | (1u8 << (id % 8)))
}

/// Bytes needed for the whitelist bitmap of a collection of
/// `collection_size` identifiers.
pub fn whitelist_bytes(collection_size: u16) -> (r: usize)
    ensures
        r == whitelist_bytes_spec(collection_size),
{
    ((collection_size as usize) + 7) / 8
}

proof fn lemma_mask_test(b: u8, k: u16)
    by (bit_vector)
    requires
        k < 8,
    ensures
        (b & (1u8 << k)) != 0 <==> ((b >> k) & 1u8) == 1u8,
{
}

/// Read bit `id` of the bitmap.
pub fn get_bit(bm: &Vec<u8>, id: u16) -> (r: bool)
    requires
        ((id / 8) as int) < bm@.len(),
    ensures
        r == bit_of(bm@, id),
{
    let byte_idx: usize = (id / 8) as usize;
    let b: u8 = bm[byte_idx];
    proof {
        lemma_mask_test(b, id % 8);
    }
    (b & (1u8 << (id % 8))) != 0
}

/// Set bit `id` of the bitmap, leaving every other bit unchanged.
pub fn set_bit(bm: &mut Vec<u8>, id: u16)
    requires
        ((id / 8) as int) < old(bm)@.len(),
    ensures
        final(bm)@ == with_bit_set(old(bm)@, id),
{
    let byte_idx: usize = (id / 8) as usize;
    let b: u8 = bm[byte_idx];
    bm.set(byte_idx, b | (1u8 << (id % 8)));
}

/// The bitmap with bit `id` clear and every other bit unchanged.
pub open spec fn with_bit_clear(bm: Seq<u8>, id: u16) -> Seq<u8> {
    bm.update((id / 8) as int, bm[(id / 8) as int] & !(1u8 << (id % 8)))
}

/// Clear bit `id` of the bitmap, leaving every other bit unchanged.
pub fn clear_bit(bm: &mut Vec<u8>, id: u16)
    requires
        ((id / 8) as int) < old(bm)@.len(),
    ensures
        final(bm)@ == with_bit_clear(old(bm)@, id),
{
    let byte_idx: usize = (id / 8) as usize;
    let b: u8 = bm[byte_idx];
    bm.set(byte_idx, b & !(1u8 << (id % 8)));
}

proof fn lemma_and_clears_bit(b: u8, k: u16)
    by (bit_vector)
    requires
        k < 8,
    ensures
        (((b & !(1u8 << k)) >> k) & 1u8) != 1u8,
{
}

proof fn lemma_and_keeps_other_bit(b: u8, k: u16, j: u16)
    by (bit_vector)
    requires
        k < 8,
        j < 8,
        j != k,
    ensures
        (((b & !(1u8 << k)) >> j) & 1u8) == ((b >> j) & 1u8),
{
}

/// Clearing bit `id` clears it, and leaves the value of every other
/// bit as it was.
pub proof fn lemma_with_bit_clear_effect(bm: Seq<u8>, id: u16)
    requires
        ((id / 8) as int) < bm.len(),
    ensures
        with_bit_clear(bm, id).len() == bm.len(),
        !bit_of(with_bit_clear(bm, id), id),
        forall|id2: u16|
            ((id2 / 8) as int) < bm.len() && id2 != id ==> bit_of(with_bit_clear(bm, id), id2)
                == bit_of(bm, id2),
{
    lemma_and_clears_bit(bm[(id / 8) as int], id % 8);
    assert forall|id2: u16| ((id2 / 8) as int) < bm.len() && id2 != id implies bit_of(
        with_bit_clear(bm, id),
        id2,
    ) == bit_of(bm, id2) by {
        if id2 / 8 == id / 8 {
            lemma_same_byte_distinct_bit(id, id2);
            lemma_and_keeps_other_bit(bm[(id / 8) as int], id % 8, id2 % 8);
        }
    }
}

proof fn lemma_or_sets_bit(b: u8, k: u16)
    by (bit_vector)
    requires
        k < 8,
    ensures
        (((b | (1u8 << k)) >> k) & 1u8) == 1u8,
{
}

proof fn lemma_or_keeps_other_bit(b: u8, k: u16, j: u16)
    by (bit_vector)
    requires
        k < 8,
        j < 8,
        j != k,
    ensures
        (((b | (1u8 << k)) >> j) & 1u8) == ((b >> j) & 1u8),
{
}

proof fn lemma_or_set_bit_noop(b: u8, k: u16)
    by (bit_vector)
    requires
        k < 8,
        ((b >> k) & 1u8) == 1u8,
    ensures
        (b | (1u8 << k)) == b,
{
}

proof fn lemma_same_byte_distinct_bit(id: u16, id2: u16)
    by (bit_vector)
    requires
        id != id2,
        id / 8 == id2 / 8,
    ensures
        id % 8 != id2 % 8,
{
}

/// Setting bit `id` sets it, and leaves the value of every other bit
/// as it was.
pub proof fn lemma_with_bit_set_effect(bm: Seq<u8>, id: u16)
    requires
        ((id / 8) as int) < bm.len(),
    ensures
        with_bit_set(bm, id).len() == bm.len(),
        bit_of(with_bit_set(bm, id), id),
        forall|id2: u16|
            ((id2 / 8) as int) < bm.len() && id2 != id ==> bit_of(with_bit_set(bm, id), id2)
                == bit_of(bm, id2),
{
    lemma_or_sets_bit(bm[(id / 8) as int], id % 8);
    assert forall|id2: u16| ((id2 / 8) as int) < bm.len() && id2 != id implies bit_of(
        with_bit_set(bm, id),
        id2,
    ) == bit_of(bm, id2) by {
        if id2 / 8 == id / 8 {
            lemma_same_byte_distinct_bit(id, id2);
            lemma_or_keeps_other_bit(bm[(id / 8) as int], id % 8, id2 % 8);
        }
    }
}

/// The bitmap with every bit named in `ids` set, in order, and every
/// other bit unchanged.
pub open spec fn with_bits_set(bm: Seq<u8>, ids: Seq<u16>) -> Seq<u8>
    decreases ids.len(),
{
    if ids.len() == 0 {
        bm
    } else {
        with_bit_set(with_bits_set(bm, ids.drop_last()), ids.last())
    }
}

/// Setting the bits named in `ids` sets exactly those: afterwards a
/// bit is set iff it was set before or its identifier occurs in `ids`.
pub proof fn lemma_with_bits_set_effect(bm: Seq<u8>, ids: Seq<u16>)
    requires
        forall|i: int| 0 <= i < ids.len() ==> ((#[trigger] ids[i] / 8) as int) < bm.len(),
    ensures
        with_bits_set(bm, ids).len() == bm.len(),
        forall|id2: u16|
            ((id2 / 8) as int) < bm.len() ==> bit_of(with_bits_set(bm, ids), id2) == (bit_of(
                bm,
                id2,
            ) || ids.contains(id2)),
    decreases ids.len(),
{
    if ids.len() == 0 {
    } else {
        let rest = ids.drop_last();
        let last = ids.last();
        lemma_with_bits_set_effect(bm, rest);
        lemma_with_bit_set_effect(with_bits_set(bm, rest), last);
        assert forall|id2: u16| ((id2 / 8) as int) < bm.len() implies bit_of(
            with_bits_set(bm, ids),
            id2,
        ) == (bit_of(bm, id2) || ids.contains(id2)) by {
            assert(ids.contains(id2) == (rest.contains(id2) || last == id2)) by {
                if ids.contains(id2) {
                    let i = choose|i: int| 0 <= i < ids.len() && ids[i] == id2;
                    if i < ids.len() - 1 {
                        assert(rest[i] == id2);
                    }
                }
                if rest.contains(id2) {
                    let i = choose|i: int| 0 <= i < rest.len() && rest[i] == id2;
                    assert(ids[i] == id2);
                }
                if last == id2 {
                    assert(ids[ids.len() - 1] == id2);
                }
            }
        }
    }
}

/// Whitelisting is idempotent: setting bits that are all already set
/// leaves the bitmap unchanged.
pub proof fn lemma_with_bits_set_idempotent(bm: Seq<u8>, ids: Seq<u16>)
    requires
        forall|i: int|
            0 <= i < ids.len() ==> ((#[trigger] ids[i] / 8) as int) < bm.len() && bit_of(
                bm,
                ids[i],
            ),
    ensures
        with_bits_set(bm, ids) == bm,
    decreases ids.len(),
{
    if ids.len() > 0 {
        let rest = ids.drop_last();
        let last = ids.last();
        assert(ids[ids.len() - 1] == last);
        assert(forall|i: int| 0 <= i < rest.len() ==> #[trigger] rest[i] == ids[i]);
        lemma_with_bits_set_idempotent(bm, rest);
        lemma_with_bit_set_idempotent(bm, last);
    }
}

/// The bitmap with the byte range starting at `offset` overwritten by
/// `bytes` verbatim, everything outside the range unchanged.
pub open spec fn with_range(bm: Seq<u8>, offset: int, bytes: Seq<u8>) -> Seq<u8> {
    bm.take(offset) + bytes + bm.skip(offset + bytes.len())
}

/// Overwrite the byte range of the bitmap starting at `offset` with
/// `bytes` verbatim.
#[verifier::loop_isolation(false)]
pub fn set_range(bm: &mut Vec<u8>, offset: usize, bytes: &Vec<u8>)
    requires
        offset + bytes@.len() <= old(bm)@.len(),
    ensures
        final(bm)@ == with_range(old(bm)@, offset as int, bytes@),
{
    let ghost orig = bm@;
    let n = bm.len();
    let mut j: usize = 0;
    while j < bytes.len()
        invariant
            j <= bytes@.len(),
            offset + bytes@.len() <= n,
            bm@.len() == orig.len(),
            n == orig.len(),
            forall|k: int|
                0 <= k < orig.len() && !(offset <= k < offset + j) ==> #[trigger] bm@[k]
                    == orig[k],
            forall|k: int| 0 <= k < j ==> #[trigger] bm@[offset + k] == bytes@[k],
        decreases bytes@.len() - j,
    {
        let b = bytes[j];
        bm.set(offset + j, b);
        j += 1;
    }
    proof {
        let merged = with_range(orig, offset as int, bytes@);
        assert forall|k: int| 0 <= k < bm@.len() implies bm@[k] == merged[k] by {
            if offset <= k < offset + bytes@.len() {
                assert(bm@[offset + (k - offset)] == bytes@[k - offset]);
            }
        }
        assert(bm@ =~= merged);
    }
}

/// A bitmap of `n` bytes, all bits clear.
pub fn zero_bitmap(n: usize) -> (r: Vec<u8>)
    ensures
        r@.len() == n,
        forall|i: int| 0 <= i < n ==> r@[i] == 0u8,
{
    let mut r: Vec<u8> = Vec::new();
    while r.len() < n
        invariant
            r@.len() <= n,
            forall|i: int| 0 <= i < r@.len() ==> r@[i] == 0u8,
        decreases n - r@.len(),
    {
        r.push(0u8);
    }
    r
}

/// Setting a bit that is already set leaves the bitmap unchanged.
pub proof fn lemma_with_bit_set_idempotent(bm: Seq<u8>, id: u16)
    requires
        ((id / 8) as int) < bm.len(),
        bit_of(bm, id),
    ensures
        with_bit_set(bm, id) == bm,
{
    lemma_or_set_bit_noop(bm[(id / 8) as int], id % 8);
    assert(with_bit_set(bm, id) =~= bm);
}

} // verus!
