//! Plain-value stand-ins for the runtime's account addresses.
//!
//! An account address is 32 bytes; it is held here as four 64-bit
//! words so that equality in contracts is field equality. The host
//! converts between its address type and this one at the boundary.

use vstd::prelude::*;

verus! {

/// A 32-byte account address, as four little-endian 64-bit words.
#[derive(Clone, Copy, Debug, PartialEq, Eq, Structural)]
pub struct Pubkey {
    pub w0: u64,
    pub w1: u64,
    pub w2: u64,
    pub w3: u64,
}

/// A destination-chain recipient address: 20 bytes, fixed width.
pub type EvmAddress = [u8; 20];

} // verus!
