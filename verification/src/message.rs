//! The cross-chain payload: exactly 22 bytes, a 2-byte big-endian
//! token identifier followed by the 20-byte recipient address
//! verbatim. No version byte, no length prefix, no padding.

use vstd::prelude::*;
use crate::keys::EvmAddress;

verus! {

/// The durability level requested when the message is posted.
#[derive(Clone, Copy, Debug, PartialEq, Eq, Structural)]
pub enum Finality {
    Confirmed,
    Finalized,
}

/// The wire bytes of the message for `token_id` and `recipient`.
pub open spec fn message_bytes(token_id: u16, recipient: Seq<u8>) -> Seq<u8> {
    seq![(token_id >> 8) as u8, (token_id & 0xff) as u8] + recipient
}

/// The two leading wire bytes recombine to the token identifier:
/// the encoding is big-endian and lossless.
pub proof fn lemma_message_id_round_trip(token_id: u16)
    by (bit_vector)
    ensures
        ((token_id >> 8) as u8) * 256 + ((token_id & 0xff) as u8) == token_id,
{
}

/// Serialize the message payload.
pub fn serialize_message(token_id: u16, evm_recipient: &EvmAddress) -> (r: Vec<u8>)
    ensures
        r@ == message_bytes(token_id, evm_recipient@),
        r@.len() == 22,
{
    let mut r: Vec<u8> = Vec::new();
    r.push((token_id >> 8) as u8);
    r.push((token_id & 0xff) as u8);
    let mut j: usize = 0;
    while j < 20
        invariant
            j <= 20,
            r@ == seq![(token_id >> 8) as u8, (token_id & 0xff) as u8] + evm_recipient@.take(
                j as int,
            ),
        decreases 20 - j,
    {
        proof {
            assert(evm_recipient@.take(j + 1) =~= evm_recipient@.take(j as int).push(
                evm_recipient@[j as int],
            ));
        }
        r.push(evm_recipient[j]);
        j += 1;
    }
    proof {
        assert(evm_recipient@.take(20) =~= evm_recipient@);
    }
    r
}

/// The fixed seed prefix (the ASCII bytes of `message`) from which,
/// together with the NFT mint, the message sub-account's deterministic
/// address is derived.
pub fn message_seed_prefix() -> (r: [u8; 7])
    ensures
        r@ == seq![109u8, 101u8, 115u8, 115u8, 97u8, 103u8, 101u8],
{
    let r: [u8; 7] = [109, 101, 115, 115, 97, 103, 101];
    proof {
        assert(r@ =~= seq![109u8, 101u8, 115u8, 115u8, 97u8, 103u8, 101u8]);
    }
    r
}

/// The ASCII byte of hex digit `n`, lowercase.
pub open spec fn hex_digit(n: u8) -> u8 {
    if n < 10 {
        (48 + n) as u8
    } else {
        (87 + n) as u8
    }
}

/// Lowercase hex rendering of a byte string, two digits per byte.
pub open spec fn hex_of(s: Seq<u8>) -> Seq<u8>
    decreases s.len(),
{
    if s.len() == 0 {
        Seq::empty()
    } else {
        hex_of(s.drop_last()) + seq![hex_digit(s.last() / 16), hex_digit(s.last() % 16)]
    }
}

/// The diagnostic rendering of a recipient address: `0x` followed by
/// its 40 lowercase hex digits, as ASCII bytes.
pub fn evm_recipient_hex(addr: &EvmAddress) -> (r: Vec<u8>)
    ensures
        r@ == seq![48u8, 120u8] + hex_of(addr@),
        r@.len() == 42,
{
    let mut r: Vec<u8> = Vec::new();
    r.push(48u8);
    r.push(120u8);
    let mut j: usize = 0;
    while j < 20
        invariant
            j <= 20,
            r@.len() == 2 + 2 * j,
            r@ == seq![48u8, 120u8] + hex_of(addr@.take(j as int)),
        decreases 20 - j,
    {
        proof {
            assert(addr@.take(j + 1).drop_last() =~= addr@.take(j as int));
        }
        let b = addr[j];
        r.push(if b / 16 < 10 {
            48 + b / 16
        } else {
            87 + b / 16
        });
        r.push(if b % 16 < 10 {
            48 + b % 16
        } else {
            87 + b % 16
        });
        j += 1;
    }
    proof {
        assert(addr@.take(20) =~= addr@);
    }
    r
}

} // verus!
