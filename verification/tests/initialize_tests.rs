use dust_bridging::error::DeBridgeError;
use dust_bridging::initialize::{initialize, instance_space, Initialize};
use dust_bridging::instance::BASE_SIZE;
use dust_bridging::keys::Pubkey;
use dust_bridging::metadata::Metadata;

fn key(tag: u64) -> Pubkey {
    Pubkey { w0: tag, w1: 0, w2: 0, w3: 0 }
}

fn accounts(recorded_authority: Pubkey) -> Initialize {
    Initialize {
        payer: key(10),
        update_authority: key(1),
        collection_mint: key(2),
        collection_meta: key(3),
        collection_meta_record: Metadata {
            update_authority: recorded_authority,
            collection: None,
            token_standard: None,
            uri: Vec::new(),
        },
    }
}

#[test]
fn initialize_builds_a_fresh_record() {
    let inst = initialize(&accounts(key(1)), 100, 254).unwrap();
    assert_eq!(inst.bump, 254);
    assert_eq!(inst.update_authority, key(1));
    assert_eq!(inst.delegate, None);
    assert_eq!(inst.collection_mint, key(2));
    assert_eq!(inst.collection_meta, key(3));
    assert!(!inst.is_paused);
    assert_eq!(inst.collection_size, 100);
    assert_eq!(inst.whitelist.len(), 13);
    for b in inst.whitelist.iter() {
        assert_eq!(*b, 0);
    }
}

#[test]
fn initialize_demands_the_recorded_update_authority() {
    let r = initialize(&accounts(key(99)), 100, 254);
    assert_eq!(r.err(), Some(DeBridgeError::InvalidUpdateAuthority));
}

#[test]
fn zero_collection_size_has_an_empty_bitmap() {
    let inst = initialize(&accounts(key(1)), 0, 255).unwrap();
    assert_eq!(inst.collection_size, 0);
    assert_eq!(inst.whitelist.len(), 0);
}

#[test]
fn record_space_is_header_plus_bitmap() {
    assert_eq!(instance_space(0), BASE_SIZE);
    assert_eq!(instance_space(9), BASE_SIZE + 2);
    assert_eq!(instance_space(65535), BASE_SIZE + 8192);
}
