use dust_bridging::message::{evm_recipient_hex, serialize_message, Finality};

#[test]
fn test_message_byteorder() {
    let token_id = 1u16;
    let evm_recipient: &[u8; 20] = &[
        0, 1, 2, 3, 4, 5, 6, 7, 8, 9, 10, 11, 12, 13, 14, 15, 16, 17, 18, 19,
    ];
    let serialialized = serialize_message(token_id, evm_recipient);
    assert_eq!(serialialized.len(), 2 + 20);
    assert_eq!(serialialized[0], 0u8);
    assert_eq!(serialialized[1], 1u8);
    for i in 0..20 {
        assert_eq!(serialialized[2 + i], i as u8);
    }
}

#[test]
fn message_is_22_bytes_with_big_endian_id() {
    let recipient: [u8; 20] = [0xAA; 20];
    let m = serialize_message(0x1234, &recipient);
    assert_eq!(m.len(), 22);
    assert_eq!(m[0], 0x12);
    assert_eq!(m[1], 0x34);
    for i in 0..20 {
        assert_eq!(m[2 + i], 0xAA);
    }
    let m0 = serialize_message(0, &recipient);
    assert_eq!(m0[0], 0);
    assert_eq!(m0[1], 0);
    let mmax = serialize_message(65535, &recipient);
    assert_eq!(mmax[0], 0xFF);
    assert_eq!(mmax[1], 0xFF);
}

#[test]
fn recipient_bytes_are_verbatim_in_order() {
    let mut recipient: [u8; 20] = [0; 20];
    for i in 0..20 {
        recipient[i] = (19 - i) as u8;
    }
    let m = serialize_message(7, &recipient);
    assert_eq!(m.len(), 22);
    for i in 0..20 {
        assert_eq!(m[2 + i], recipient[i]);
    }
}

#[test]
fn finality_is_an_ordinary_value() {
    assert_eq!(Finality::Finalized, Finality::Finalized);
    assert_ne!(Finality::Confirmed, Finality::Finalized);
}

#[test]
fn recipient_hex_rendering() {
    let recipient: [u8; 20] = [
        0x00, 0x01, 0x0a, 0x10, 0xab, 0xcd, 0xef, 0x99, 0xff, 0x20, 0x00, 0x01, 0x02, 0x03, 0x04,
        0x05, 0x06, 0x07, 0x08, 0x09,
    ];
    let hex = evm_recipient_hex(&recipient);
    let expected = "0x00010a10abcdef99ff2000010203040506070809";
    // the 0x prefix plus two lowercase digits per byte
    assert_eq!(hex.len(), 42);
    assert_eq!(&hex[..], expected.as_bytes());
}

#[test]
fn message_accounts_derive_from_the_fixed_seed() {
    assert_eq!(&dust_bridging::message::message_seed_prefix(), b"message");
}
