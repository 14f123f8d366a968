use private_swap::cipher::Coprocessor;
use private_swap::cipher::EUINT128_INPUT_TYPE;
use private_swap::errors::CipherError;
use private_swap::errors::CustomError;
use private_swap::errors::InstructionError;
use private_swap::keys::Pubkey;
use private_swap::ledger::transfer;
use private_swap::ledger::AccountState;
use private_swap::ledger::COption;
use private_swap::ledger::IncoAccount;

fn key(n: u64) -> Pubkey {
    Pubkey { w0: n, w1: 0, w2: 0, w3: 0 }
}

fn account(copro: &mut Coprocessor, mint: Pubkey, owner: Pubkey, amount: u128) -> IncoAccount {
    let amount = copro.as_euint128(amount);
    let delegated_amount = copro.as_euint128(0);
    IncoAccount {
        mint,
        owner,
        amount,
        delegate: COption::CNone,
        state: AccountState::Initialized,
        is_native: COption::CNone,
        delegated_amount,
        close_authority: COption::CNone,
    }
}

#[test]
fn transfer_moves_the_amount() {
    let mut copro = Coprocessor::new();
    let mint = key(10);
    let alice = key(1);
    let bob = key(2);
    let mut src = account(&mut copro, mint, alice, 500);
    let mut dst = account(&mut copro, mint, bob, 40);
    let r = transfer(&mut copro, &mut src, &mut dst, alice, &300u128.to_le_bytes(), EUINT128_INPUT_TYPE);
    assert_eq!(r, Ok(()));
    assert_eq!(copro.decrypt(src.amount), 200);
    assert_eq!(copro.decrypt(dst.amount), 340);
}

#[test]
fn transfer_overdraft_clamps_to_zero() {
    let mut copro = Coprocessor::new();
    let mint = key(10);
    let alice = key(1);
    let bob = key(2);
    let mut src = account(&mut copro, mint, alice, 100);
    let mut dst = account(&mut copro, mint, bob, 0);
    let r = transfer(&mut copro, &mut src, &mut dst, alice, &101u128.to_le_bytes(), EUINT128_INPUT_TYPE);
    assert_eq!(r, Ok(()));
    assert_eq!(copro.decrypt(src.amount), 100);
    assert_eq!(copro.decrypt(dst.amount), 0);
}

#[test]
fn transfer_rejects_uninitialized_account() {
    let mut copro = Coprocessor::new();
    let mint = key(10);
    let alice = key(1);
    let mut src = account(&mut copro, mint, alice, 100);
    let mut dst = account(&mut copro, mint, key(2), 0);
    dst.state = AccountState::Uninitialized;
    let r = transfer(&mut copro, &mut src, &mut dst, alice, &1u128.to_le_bytes(), EUINT128_INPUT_TYPE);
    assert_eq!(r, Err(InstructionError::Cpi(CustomError::UninitializedState)));
    assert_eq!(copro.decrypt(src.amount), 100);
    assert_eq!(copro.decrypt(dst.amount), 0);
}

#[test]
fn transfer_rejects_frozen_account() {
    let mut copro = Coprocessor::new();
    let mint = key(10);
    let alice = key(1);
    let mut src = account(&mut copro, mint, alice, 100);
    src.state = AccountState::Frozen;
    let mut dst = account(&mut copro, mint, key(2), 0);
    let r = transfer(&mut copro, &mut src, &mut dst, alice, &1u128.to_le_bytes(), EUINT128_INPUT_TYPE);
    assert_eq!(r, Err(InstructionError::Cpi(CustomError::AccountFrozen)));
}

#[test]
fn transfer_rejects_mint_mismatch() {
    let mut copro = Coprocessor::new();
    let alice = key(1);
    let mut src = account(&mut copro, key(10), alice, 100);
    let mut dst = account(&mut copro, key(11), key(2), 0);
    let r = transfer(&mut copro, &mut src, &mut dst, alice, &1u128.to_le_bytes(), EUINT128_INPUT_TYPE);
    assert_eq!(r, Err(InstructionError::Cpi(CustomError::MintMismatch)));
}

#[test]
fn transfer_rejects_non_owner() {
    let mut copro = Coprocessor::new();
    let mint = key(10);
    let mut src = account(&mut copro, mint, key(1), 100);
    let mut dst = account(&mut copro, mint, key(2), 0);
    let mallory = key(3);
    let r = transfer(&mut copro, &mut src, &mut dst, mallory, &1u128.to_le_bytes(), EUINT128_INPUT_TYPE);
    assert_eq!(r, Err(InstructionError::Cpi(CustomError::OwnerMismatch)));
}

#[test]
fn transfer_rejects_malformed_ciphertext() {
    let mut copro = Coprocessor::new();
    let mint = key(10);
    let alice = key(1);
    let mut src = account(&mut copro, mint, alice, 100);
    let mut dst = account(&mut copro, mint, key(2), 0);
    let r = transfer(&mut copro, &mut src, &mut dst, alice, &[1u8, 2, 3], EUINT128_INPUT_TYPE);
    assert_eq!(r, Err(InstructionError::Cipher(CipherError::InvalidCiphertext)));
    assert_eq!(copro.decrypt(src.amount), 100);
    assert_eq!(copro.decrypt(dst.amount), 0);
}

#[test]
fn coption_observations() {
    let none: COption<u64> = COption::default();
    assert!(none.is_none());
    assert!(!none.is_some());
    let some = COption::CSome(7u64);
    assert!(some.is_some());
    assert!(!some.is_none());
}
