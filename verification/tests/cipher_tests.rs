use private_swap::cipher::Coprocessor;
use private_swap::cipher::EUINT128_INPUT_TYPE;
use private_swap::errors::CipherError;
use private_swap::keys::Pubkey;

fn key(n: u64) -> Pubkey {
    Pubkey { w0: n, w1: 0, w2: 0, w3: 0 }
}

#[test]
fn constant_roundtrip() {
    let mut copro = Coprocessor::new();
    let h = copro.as_euint128(42);
    assert_eq!(copro.decrypt(h), 42);
    let z = copro.as_euint128(0);
    assert_eq!(copro.decrypt(z), 0);
}

#[test]
fn import_well_formed_ciphertext() {
    let mut copro = Coprocessor::new();
    let ct = 123456789u128.to_le_bytes();
    let h = copro.new_euint128(&ct, EUINT128_INPUT_TYPE).unwrap();
    assert_eq!(copro.decrypt(h), 123456789);
}

#[test]
fn import_rejects_short_ciphertext() {
    let mut copro = Coprocessor::new();
    let r = copro.new_euint128(&[1, 2, 3], EUINT128_INPUT_TYPE);
    assert_eq!(r, Err(CipherError::InvalidCiphertext));
}

#[test]
fn import_rejects_long_ciphertext() {
    let mut copro = Coprocessor::new();
    let r = copro.new_euint128(&[0u8; 17], EUINT128_INPUT_TYPE);
    assert_eq!(r, Err(CipherError::InvalidCiphertext));
}

#[test]
fn import_rejects_wrong_input_type() {
    let mut copro = Coprocessor::new();
    let ct = 7u128.to_le_bytes();
    let r = copro.new_euint128(&ct, EUINT128_INPUT_TYPE + 1);
    assert_eq!(r, Err(CipherError::InvalidCiphertext));
}

#[test]
fn addition_wraps_at_max() {
    let mut copro = Coprocessor::new();
    let a = copro.as_euint128(u128::MAX);
    let b = copro.as_euint128(2);
    let sum = copro.e_add(a, b);
    assert_eq!(copro.decrypt(sum), 1);
}

#[test]
fn subtraction_wraps_below_zero() {
    let mut copro = Coprocessor::new();
    let a = copro.as_euint128(1);
    let b = copro.as_euint128(3);
    let diff = copro.e_sub(a, b);
    assert_eq!(copro.decrypt(diff), u128::MAX - 1);
}

#[test]
fn multiplication_exact_and_wrapping() {
    let mut copro = Coprocessor::new();
    let a = copro.as_euint128(1000);
    let b = copro.as_euint128(1000);
    let prod = copro.e_mul(a, b);
    assert_eq!(copro.decrypt(prod), 1_000_000);

    let big = copro.as_euint128(1u128 << 127);
    let two = copro.as_euint128(2);
    let wrapped = copro.e_mul(big, two);
    assert_eq!(copro.decrypt(wrapped), 0);
}

#[test]
fn comparison_and_select() {
    let mut copro = Coprocessor::new();
    let lo = copro.as_euint128(5);
    let hi = copro.as_euint128(9);
    let ge = copro.e_ge(hi, lo);
    let picked = copro.e_select(ge, hi, lo);
    assert_eq!(copro.decrypt(picked), 9);

    let lt = copro.e_ge(lo, hi);
    let picked_other = copro.e_select(lt, hi, lo);
    assert_eq!(copro.decrypt(picked_other), 5);

    let eq = copro.e_ge(lo, lo);
    let picked_eq = copro.e_select(eq, hi, lo);
    assert_eq!(copro.decrypt(picked_eq), 9);
}

#[test]
fn view_grants_accumulate() {
    let mut copro = Coprocessor::new();
    let h = copro.as_euint128(11);
    let alice = key(1);
    let bob = key(2);
    assert!(!copro.is_viewer(h, alice));
    copro.allow(h, alice);
    assert!(copro.is_viewer(h, alice));
    assert!(!copro.is_viewer(h, bob));
    copro.allow(h, bob);
    assert!(copro.is_viewer(h, alice));
    assert!(copro.is_viewer(h, bob));
}

#[test]
fn handles_are_independent() {
    let mut copro = Coprocessor::new();
    let a = copro.as_euint128(1);
    let b = copro.as_euint128(2);
    let sum = copro.e_add(a, b);
    assert_eq!(copro.decrypt(a), 1);
    assert_eq!(copro.decrypt(b), 2);
    assert_eq!(copro.decrypt(sum), 3);
    assert_ne!(a, b);
    assert_ne!(a, sum);
}
