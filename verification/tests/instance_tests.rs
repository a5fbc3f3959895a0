use dust_bridging::error::DeBridgeError;
use dust_bridging::instance::{Instance, BASE_SIZE};
use dust_bridging::keys::Pubkey;

fn key(tag: u64) -> Pubkey {
    Pubkey { w0: tag, w1: 0, w2: 0, w3: 0 }
}

fn instance(collection_size: u16, whitelist: Vec<u8>) -> Instance {
    Instance {
        bump: 255,
        update_authority: key(1),
        delegate: None,
        collection_mint: key(2),
        collection_meta: key(3),
        is_paused: false,
        collection_size,
        whitelist,
    }
}

#[test]
fn whitelisting_disabled_at_size_zero_whatever_the_bitmap_holds() {
    assert!(!instance(0, vec![]).whitelist_enabled());
    // even a stray nonzero bitmap does not enable it
    assert!(!instance(0, vec![0xFF, 0xFF]).whitelist_enabled());
    assert!(instance(1, vec![0]).whitelist_enabled());
    assert!(instance(65535, vec![0; 8192]).whitelist_enabled());
}

#[test]
fn is_whitelisted_reads_the_bit_and_bounds() {
    let inst = instance(10, vec![0b0000_0100, 0b0000_0001]);
    assert_eq!(inst.is_whitelisted(2), Ok(true));
    assert_eq!(inst.is_whitelisted(3), Ok(false));
    assert_eq!(inst.is_whitelisted(8), Ok(true));
    assert_eq!(inst.is_whitelisted(9), Ok(false));
    assert_eq!(inst.is_whitelisted(10), Err(DeBridgeError::TokenIdOutOfBounds));
    assert_eq!(inst.is_whitelisted(65535), Err(DeBridgeError::TokenIdOutOfBounds));
}

#[test]
fn base_size_covers_the_fixed_header() {
    // record tag, bump, authority, optional delegate, mint, meta,
    // pause flag, size, vector length
    assert_eq!(BASE_SIZE, 8 + 1 + 32 + 33 + 32 + 32 + 1 + 2 + 4);
}

#[test]
fn instance_addresses_derive_from_the_fixed_seed() {
    assert_eq!(&dust_bridging::instance::instance_seed_prefix(), b"instance");
}

#[test]
fn single_bit_set_and_clear_respect_the_declared_size() {
    let mut inst = instance(10, vec![0, 0]);
    assert_eq!(inst.set_bit(9), Ok(()));
    assert_eq!(inst.is_whitelisted(9), Ok(true));
    assert_eq!(inst.clear_bit(9), Ok(()));
    assert_eq!(inst.is_whitelisted(9), Ok(false));
    assert_eq!(inst.set_bit(10), Err(DeBridgeError::TokenIdOutOfBounds));
    assert_eq!(inst.clear_bit(10), Err(DeBridgeError::TokenIdOutOfBounds));
    assert_eq!(inst.whitelist, vec![0, 0]);
}
