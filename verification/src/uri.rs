//! Token-identifier extraction from a metadata URI: the decimal
//! numeral between the last `/` and the literal `.json`, e.g.
//! `https://metadata.degods.com/g/3250.json` holds identifier `3250`.
//! A URI with no `/`, no `.json`, or anything but a decimal numeral
//! that fits in 16 bits between them, has no identifier.

use vstd::prelude::*;

verus! {

/// ASCII decimal digit.
pub open spec fn is_digit(b: u8) -> bool {
    48 <= b <= 57
}

pub open spec fn all_digits(s: Seq<u8>) -> bool {
    forall|i: int| 0 <= i < s.len() ==> is_digit(#[trigger] s[i])
}

/// Value of a decimal numeral, most significant digit first.
pub open spec fn digits_val(s: Seq<u8>) -> int
    decreases s.len(),
{
    if s.len() == 0 {
        0
    } else {
        digits_val(s.drop_last()) * 10 + (s.last() - 48)
    }
}

/// Index of the last `/` (byte 47), if any.
pub open spec fn last_slash(s: Seq<u8>) -> Option<int>
    decreases s.len(),
{
    if s.len() == 0 {
        None
    } else if s.last() == 47u8 {
        Some(s.len() - 1)
    } else {
        last_slash(s.drop_last())
    }
}

/// Whether the five bytes of `.json` stand at index `i`.
pub open spec fn json_at(s: Seq<u8>, i: int) -> bool {
    &&& i + 5 <= s.len()
    &&& s[i] == 46u8
    &&& s[i + 1] == 106u8
    &&& s[i + 2] == 115u8
    &&& s[i + 3] == 111u8
    &&& s[i + 4] == 110u8
}

/// Index of the first occurrence of `.json` at or after `i`, if any.
pub open spec fn first_json_from(s: Seq<u8>, i: int) -> Option<int>
    decreases s.len() - i,
{
    if i + 5 > s.len() {
        None
    } else if json_at(s, i) {
        Some(i)
    } else {
        first_json_from(s, i + 1)
    }
}

pub open spec fn first_json(s: Seq<u8>) -> Option<int> {
    first_json_from(s, 0)
}

/// The token identifier the URI encodes: the decimal numeral strictly
/// between the last `/` and the first `.json`, when there is one and
/// it fits in 16 bits.
pub open spec fn token_id_of_uri(s: Seq<u8>) -> Option<u16> {
    if last_slash(s) is Some && first_json(s) is Some {
        let sl = last_slash(s)->Some_0;
        let j = first_json(s)->Some_0;
        if j > sl + 1 && all_digits(s.subrange(sl + 1, j)) && digits_val(s.subrange(sl + 1, j))
            <= 65535 {
            Some(digits_val(s.subrange(sl + 1, j)) as u16)
        } else {
            None
        }
    } else {
        None
    }
}

proof fn lemma_digits_val_nonneg(s: Seq<u8>)
    requires
        all_digits(s),
    ensures
        digits_val(s) >= 0,
    decreases s.len(),
{
    if s.len() > 0 {
        assert(all_digits(s.drop_last())) by {
            assert(forall|i: int|
                0 <= i < s.len() - 1 ==> #[trigger] s.drop_last()[i] == s[i]);
        }
        lemma_digits_val_nonneg(s.drop_last());
    }
}

/// A numeral's digits never lessen its value: every prefix of a digit
/// string has a value at most the whole string's.
proof fn lemma_digits_val_prefix_le(s: Seq<u8>, m: int)
    requires
        all_digits(s),
        0 <= m <= s.len(),
    ensures
        digits_val(s.take(m)) <= digits_val(s),
    decreases s.len() - m,
{
    if m == s.len() {
        assert(s.take(m) =~= s);
    } else {
        assert(s.take(m + 1).drop_last() =~= s.take(m));
        assert(all_digits(s.take(m))) by {
            assert(forall|i: int| 0 <= i < m ==> #[trigger] s.take(m)[i] == s[i]);
        }
        lemma_digits_val_nonneg(s.take(m));
        assert(digits_val(s.take(m + 1)) == digits_val(s.take(m)) * 10 + (s[m] - 48));
        lemma_digits_val_prefix_le(s, m + 1);
    }
}

/// Extract the token identifier from the URI bytes; `None` exactly
/// when the URI encodes none.
#[verifier::loop_isolation(false)]
pub fn parse_token_id(uri: &Vec<u8>) -> (r: Option<u16>)
    ensures
        r == token_id_of_uri(uri@),
{
    let n = uri.len();

    // Last '/' in the URI.
    let mut slash_idx: usize = 0;
    let mut has_slash = false;
    let mut i: usize = 0;
    while i < n
        invariant
            i <= n,
            !has_slash ==> last_slash(uri@.take(i as int)) is None,
            has_slash ==> slash_idx < i && last_slash(uri@.take(i as int)) == Some(
                slash_idx as int,
            ),
        decreases n - i,
    {
        proof {
            assert(uri@.take(i + 1).drop_last() =~= uri@.take(i as int));
        }
        if uri[i] == 47u8 {
            slash_idx = i;
            has_slash = true;
        }
        i += 1;
    }
    proof {
        assert(uri@.take(n as int) =~= uri@);
    }
    if !has_slash {
        return None;
    }

    // First ".json" in the URI.
    let mut json_idx: usize = 0;
    let mut has_json = false;
    let mut i: usize = 0;
    while !has_json && n - i >= 5
        invariant
            i <= n,
            !has_json ==> first_json(uri@) == first_json_from(uri@, i as int),
            has_json ==> json_idx == i && i + 5 <= n && first_json(uri@) == Some(json_idx as int),
        decreases n - i + (if has_json { 0int } else { 1int }),
    {
        if uri[i] == 46u8 && uri[i + 1] == 106u8 && uri[i + 2] == 115u8 && uri[i + 3] == 111u8
            && uri[i + 4] == 110u8 {
            json_idx = i;
            has_json = true;
        } else {
            i += 1;
        }
    }
    if !has_json {
        return None;
    }

    // The numeral between them.
    let start = slash_idx + 1;
    let end = json_idx;
    if start >= end {
        return None;
    }
    let ghost digits = uri@.subrange(start as int, end as int);
    let mut val: u32 = 0;
    let mut k: usize = start;
    while k < end
        invariant
            start <= k <= end,
            all_digits(uri@.subrange(start as int, k as int)),
            val == digits_val(uri@.subrange(start as int, k as int)),
            val <= 65535,
        decreases end - k,
    {
        let b = uri[k];
        proof {
            assert(uri@.subrange(start as int, k + 1).drop_last() =~= uri@.subrange(
                start as int,
                k as int,
            ));
        }
        if b < 48u8 || b > 57u8 {
            proof {
                assert(digits[k - start] == b);
                assert(!all_digits(digits));
            }
            return None;
        }
        val = val * 10 + ((b - 48u8) as u32);
        k += 1;
        if val > 65535 {
            proof {
                if all_digits(digits) {
                    assert(digits.take(k - start) =~= uri@.subrange(start as int, k as int));
                    lemma_digits_val_prefix_le(digits, k - start);
                }
            }
            return None;
        }
    }
    proof {
        assert(uri@.subrange(start as int, end as int) =~= digits);
    }
    Some(val as u16)
}

} // verus!
