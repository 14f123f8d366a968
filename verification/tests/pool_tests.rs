use private_swap::cipher::Coprocessor;
use private_swap::cipher::EUINT128_INPUT_TYPE;
use private_swap::errors::CipherError;
use private_swap::errors::ErrorCode;
use private_swap::errors::InstructionError;
use private_swap::keys::Pubkey;
use private_swap::ledger::AccountState;
use private_swap::ledger::COption;
use private_swap::ledger::IncoAccount;
use private_swap::pool::add_liquidity;
use private_swap::pool::initialize_pool;
use private_swap::pool::remove_liquidity;
use private_swap::pool::set_authority;
use private_swap::pool::set_fee;
use private_swap::pool::set_pause;
use private_swap::pool::swap_exact_in;
use private_swap::pool::withdraw_protocol_fees;
use private_swap::pool::Pool;

fn key(n: u64) -> Pubkey {
    Pubkey { w0: n, w1: 0, w2: 0, w3: 0 }
}

fn account(copro: &mut Coprocessor, mint: Pubkey, owner: Pubkey, amount: u128) -> IncoAccount {
    let amount = copro.as_euint128(amount);
    let delegated_amount = copro.as_euint128(0);
    IncoAccount {
        mint,
        owner,
        amount,
        delegate: COption::CNone,
        state: AccountState::Initialized,
        is_native: COption::CNone,
        delegated_amount,
        close_authority: COption::CNone,
    }
}

struct Setup {
    copro: Coprocessor,
    pool: Pool,
    pool_address: Pubkey,
    authority: Pubkey,
    user_a: IncoAccount,
    user_b: IncoAccount,
    pool_a: IncoAccount,
    pool_b: IncoAccount,
}

fn setup(fee_bps: u16, user_funds: u128) -> Setup {
    let mut copro = Coprocessor::new();
    let authority = key(1);
    let pool_address = key(2);
    let mint_a = key(10);
    let mint_b = key(11);
    let pool = initialize_pool(&mut copro, authority, mint_a, mint_b, fee_bps, 255, 1000, 0)
        .unwrap();
    let user_a = account(&mut copro, mint_a, authority, user_funds);
    let user_b = account(&mut copro, mint_b, authority, user_funds);
    let pool_a = account(&mut copro, mint_a, pool_address, 0);
    let pool_b = account(&mut copro, mint_b, pool_address, 0);
    Setup { copro, pool, pool_address, authority, user_a, user_b, pool_a, pool_b }
}

fn ct(v: u128) -> [u8; 16] {
    v.to_le_bytes()
}

fn add(s: &mut Setup, a: u128, b: u128, now: i64) -> Result<(), InstructionError> {
    add_liquidity(
        &mut s.pool,
        &mut s.copro,
        &mut s.user_a,
        &mut s.user_b,
        &mut s.pool_a,
        &mut s.pool_b,
        s.authority,
        &ct(a),
        &ct(b),
        EUINT128_INPUT_TYPE,
        now,
        0,
    )
}

#[test]
fn initialize_pool_seeds_encrypted_zeroes() {
    let s = setup(30, 0);
    assert_eq!(s.copro.decrypt(s.pool.reserve_a), 0);
    assert_eq!(s.copro.decrypt(s.pool.reserve_b), 0);
    assert_eq!(s.copro.decrypt(s.pool.protocol_fee_a), 0);
    assert_eq!(s.copro.decrypt(s.pool.protocol_fee_b), 0);
    assert_eq!(s.pool.fee_bps, 30);
    assert_eq!(s.pool.authority, key(1));
    assert!(!s.pool.is_paused);
    assert_eq!(s.pool.last_update_ts, 1000);
    // no access accounts were supplied, so no view grant happened
    assert!(!s.copro.is_viewer(s.pool.reserve_a, key(1)));
}

#[test]
fn view_grant_demands_enough_access_accounts() {
    let mut copro = Coprocessor::new();
    let h = copro.as_euint128(0);
    let r = private_swap::pool::call_allow_from_remaining(&mut copro, 1, h, key(1), 0);
    assert_eq!(r, Err(InstructionError::Amm(ErrorCode::InvalidAccessAccounts)));
    assert!(!copro.is_viewer(h, key(1)));
    let r = private_swap::pool::call_allow_from_remaining(&mut copro, 2, h, key(1), 0);
    assert_eq!(r, Ok(()));
    assert!(copro.is_viewer(h, key(1)));
}

#[test]
fn initialize_pool_grants_view_access_when_accounts_supplied() {
    let mut copro = Coprocessor::new();
    let authority = key(1);
    let pool = initialize_pool(&mut copro, authority, key(10), key(11), 0, 254, 5, 8).unwrap();
    assert!(copro.is_viewer(pool.reserve_a, authority));
    assert!(copro.is_viewer(pool.reserve_b, authority));
    assert!(copro.is_viewer(pool.protocol_fee_a, authority));
    assert!(copro.is_viewer(pool.protocol_fee_b, authority));

    // with only four trailing accounts, just the two reserves are granted
    let mut copro = Coprocessor::new();
    let pool = initialize_pool(&mut copro, authority, key(10), key(11), 0, 254, 5, 4).unwrap();
    assert!(copro.is_viewer(pool.reserve_a, authority));
    assert!(copro.is_viewer(pool.reserve_b, authority));
    assert!(!copro.is_viewer(pool.protocol_fee_a, authority));
    assert!(!copro.is_viewer(pool.protocol_fee_b, authority));
}

#[test]
fn initialize_pool_rejects_fee_above_limit() {
    let mut copro = Coprocessor::new();
    let r = initialize_pool(&mut copro, key(1), key(10), key(11), 10001, 255, 0, 0);
    assert_eq!(r.unwrap_err(), InstructionError::Amm(ErrorCode::InvalidFee));
}

#[test]
fn set_fee_accepts_bounds_and_rejects_above() {
    let mut s = setup(30, 0);
    assert_eq!(set_fee(&mut s.pool, s.authority, 0, 2000), Ok(()));
    assert_eq!(s.pool.fee_bps, 0);
    assert_eq!(set_fee(&mut s.pool, s.authority, 10000, 2001), Ok(()));
    assert_eq!(s.pool.fee_bps, 10000);
    assert_eq!(
        set_fee(&mut s.pool, s.authority, 10001, 2002),
        Err(InstructionError::Amm(ErrorCode::InvalidFee))
    );
    assert_eq!(s.pool.fee_bps, 10000);
    assert_eq!(s.pool.last_update_ts, 2001);
}

#[test]
fn set_fee_rejects_above_limit_before_authority() {
    let mut s = setup(30, 0);
    let mallory = key(99);
    assert_eq!(
        set_fee(&mut s.pool, mallory, 20000, 2000),
        Err(InstructionError::Amm(ErrorCode::InvalidFee))
    );
    assert_eq!(
        set_fee(&mut s.pool, mallory, 100, 2000),
        Err(InstructionError::Amm(ErrorCode::Unauthorized))
    );
}

#[test]
fn admin_instructions_reject_non_authority() {
    let mut s = setup(30, 1000);
    let mallory = key(99);
    assert_eq!(
        set_pause(&mut s.pool, mallory, true, 2000),
        Err(InstructionError::Amm(ErrorCode::Unauthorized))
    );
    assert_eq!(
        set_authority(&mut s.pool, mallory, mallory, 2000),
        Err(InstructionError::Amm(ErrorCode::Unauthorized))
    );
    let r = add_liquidity(
        &mut s.pool,
        &mut s.copro,
        &mut s.user_a,
        &mut s.user_b,
        &mut s.pool_a,
        &mut s.pool_b,
        mallory,
        &ct(1),
        &ct(1),
        EUINT128_INPUT_TYPE,
        2000,
        0,
    );
    assert_eq!(r, Err(InstructionError::Amm(ErrorCode::Unauthorized)));
    let r = remove_liquidity(
        &mut s.pool,
        s.pool_address,
        &mut s.copro,
        &mut s.user_a,
        &mut s.user_b,
        &mut s.pool_a,
        &mut s.pool_b,
        mallory,
        &ct(1),
        &ct(1),
        EUINT128_INPUT_TYPE,
        2000,
        0,
    );
    assert_eq!(r, Err(InstructionError::Amm(ErrorCode::Unauthorized)));
    let r = withdraw_protocol_fees(
        &mut s.pool,
        &mut s.copro,
        mallory,
        &ct(1),
        &ct(1),
        EUINT128_INPUT_TYPE,
        2000,
        0,
    );
    assert_eq!(r, Err(InstructionError::Amm(ErrorCode::Unauthorized)));
    assert_eq!(s.pool.last_update_ts, 1000);
}

#[test]
fn swap_is_open_to_any_token_holder() {
    let mut s = setup(30, 0);
    assert_eq!(add(&mut s, 1000, 1000, 1001), Ok(()));
    // a non-authority caller with their own matching accounts swaps fine
    let carol = key(50);
    let mut carol_a = account(&mut s.copro, key(10), carol, 500);
    let mut carol_b = account(&mut s.copro, key(11), carol, 0);
    let r = swap_exact_in(
        &mut s.pool,
        s.pool_address,
        &mut s.copro,
        &mut carol_a,
        &mut carol_b,
        &mut s.pool_a,
        &mut s.pool_b,
        carol,
        &ct(100),
        &ct(90),
        &ct(1),
        EUINT128_INPUT_TYPE,
        true,
        1002,
        0,
    );
    assert_eq!(r, Ok(()));
    assert_eq!(s.copro.decrypt(s.pool.reserve_a), 1100);
    assert_eq!(s.copro.decrypt(s.pool.reserve_b), 910);
}

#[test]
fn paused_pool_blocks_liquidity_and_swaps_until_resumed() {
    let mut s = setup(30, 2000);
    assert_eq!(add(&mut s, 1000, 1000, 1001), Ok(()));
    assert_eq!(set_pause(&mut s.pool, s.authority, true, 1002), Ok(()));
    assert!(s.pool.is_paused);

    let r = add(&mut s, 10, 10, 1003);
    assert_eq!(r, Err(InstructionError::Amm(ErrorCode::PoolPaused)));
    let r = remove_liquidity(
        &mut s.pool,
        s.pool_address,
        &mut s.copro,
        &mut s.user_a,
        &mut s.user_b,
        &mut s.pool_a,
        &mut s.pool_b,
        s.authority,
        &ct(10),
        &ct(10),
        EUINT128_INPUT_TYPE,
        1003,
        0,
    );
    assert_eq!(r, Err(InstructionError::Amm(ErrorCode::PoolPaused)));
    let r = swap_exact_in(
        &mut s.pool,
        s.pool_address,
        &mut s.copro,
        &mut s.user_a,
        &mut s.user_b,
        &mut s.pool_a,
        &mut s.pool_b,
        s.authority,
        &ct(100),
        &ct(90),
        &ct(1),
        EUINT128_INPUT_TYPE,
        true,
        1003,
        0,
    );
    assert_eq!(r, Err(InstructionError::Amm(ErrorCode::PoolPaused)));
    // fee withdrawal is authority-only but not gated on pause
    let r = withdraw_protocol_fees(
        &mut s.pool,
        &mut s.copro,
        s.authority,
        &ct(0),
        &ct(0),
        EUINT128_INPUT_TYPE,
        1004,
        0,
    );
    assert_eq!(r, Ok(()));

    assert_eq!(set_pause(&mut s.pool, s.authority, false, 1005), Ok(()));
    assert_eq!(add(&mut s, 10, 10, 1006), Ok(()));
    assert_eq!(s.copro.decrypt(s.pool.reserve_a), 1010);
    assert_eq!(s.copro.decrypt(s.pool.reserve_b), 1010);
}

#[test]
fn liquidity_rejects_malformed_ciphertext() {
    let mut s = setup(30, 1000);
    let r = add_liquidity(
        &mut s.pool,
        &mut s.copro,
        &mut s.user_a,
        &mut s.user_b,
        &mut s.pool_a,
        &mut s.pool_b,
        s.authority,
        &[1u8, 2, 3],
        &ct(1),
        EUINT128_INPUT_TYPE,
        2000,
        0,
    );
    assert_eq!(r, Err(InstructionError::Cipher(CipherError::InvalidCiphertext)));
    assert_eq!(s.copro.decrypt(s.pool.reserve_a), 0);
    assert_eq!(s.pool.last_update_ts, 1000);
}

#[test]
fn swap_grants_view_access_to_the_pool_authority_not_the_caller() {
    let mut s = setup(30, 0);
    assert_eq!(add(&mut s, 1000, 1000, 1001), Ok(()));
    let carol = key(50);
    let mut carol_a = account(&mut s.copro, key(10), carol, 500);
    let mut carol_b = account(&mut s.copro, key(11), carol, 0);
    let r = swap_exact_in(
        &mut s.pool,
        s.pool_address,
        &mut s.copro,
        &mut carol_a,
        &mut carol_b,
        &mut s.pool_a,
        &mut s.pool_b,
        carol,
        &ct(100),
        &ct(90),
        &ct(1),
        EUINT128_INPUT_TYPE,
        true,
        1002,
        16,
    );
    assert_eq!(r, Ok(()));
    assert!(s.copro.is_viewer(s.pool.reserve_a, s.authority));
    assert!(s.copro.is_viewer(s.pool.reserve_b, s.authority));
    assert!(s.copro.is_viewer(s.pool.protocol_fee_a, s.authority));
    assert!(s.copro.is_viewer(s.pool.protocol_fee_b, s.authority));
    assert!(!s.copro.is_viewer(s.pool.reserve_a, carol));
}

#[test]
fn add_liquidity_grants_view_access_on_the_new_reserves() {
    let mut s = setup(30, 1000);
    let r = add_liquidity(
        &mut s.pool,
        &mut s.copro,
        &mut s.user_a,
        &mut s.user_b,
        &mut s.pool_a,
        &mut s.pool_b,
        s.authority,
        &ct(100),
        &ct(100),
        EUINT128_INPUT_TYPE,
        1001,
        10,
    );
    assert_eq!(r, Ok(()));
    // ten trailing accounts reach the reserve-A grant only
    assert!(s.copro.is_viewer(s.pool.reserve_a, s.authority));
    assert!(!s.copro.is_viewer(s.pool.reserve_b, s.authority));
}

#[test]
fn set_authority_hands_the_pool_over() {
    let mut s = setup(30, 0);
    let new_admin = key(7);
    assert_eq!(set_authority(&mut s.pool, s.authority, new_admin, 2000), Ok(()));
    assert_eq!(s.pool.authority, new_admin);
    // the old authority is locked out now
    assert_eq!(
        set_pause(&mut s.pool, s.authority, true, 2001),
        Err(InstructionError::Amm(ErrorCode::Unauthorized))
    );
    assert_eq!(set_pause(&mut s.pool, new_admin, true, 2002), Ok(()));
}
