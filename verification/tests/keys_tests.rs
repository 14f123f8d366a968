use private_swap::keys::swap_program_id;
use private_swap::keys::token_program_id;
use private_swap::keys::Pubkey;

#[test]
fn to_bytes_is_32_little_endian_bytes() {
    let k = Pubkey { w0: 1, w1: 2, w2: 3, w3: 0x0807060504030201 };
    let bytes = k.to_bytes();
    assert_eq!(bytes.len(), 32);
    assert_eq!(bytes[0], 1);
    assert_eq!(bytes[8], 2);
    assert_eq!(bytes[16], 3);
    assert_eq!(&bytes[24..32], &[1, 2, 3, 4, 5, 6, 7, 8]);
}

#[test]
fn bytes_roundtrip() {
    let k = Pubkey { w0: 0xdeadbeef, w1: 42, w2: u64::MAX, w3: 7 };
    let bytes = k.to_bytes();
    let back = Pubkey::from_bytes(&bytes);
    assert_eq!(back, k);
}

#[test]
fn program_ids_differ() {
    assert_ne!(swap_program_id(), token_program_id());
    assert_eq!(swap_program_id(), swap_program_id());
}
