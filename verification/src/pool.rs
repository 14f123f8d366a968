//! The confidential pool engine: one constant-product liquidity pair whose
//! reserves and fee accumulators are encrypted handles. Per pool the state
//! machine is Uninitialized → Active ⇄ Paused: `initialize_pool` is the only
//! way in, `set_pause` toggles, and the liquidity and swap instructions
//! demand the Active state.
//!
//! Insufficient liquidity or a constant-product violation during a swap or
//! withdrawal is not an error: the trade is obliviously clamped to zero so
//! that success or failure never leaks what the encrypted comparison found.
//! Every instruction either completes or returns its first failing check
//! with no state change at all, mirroring the all-or-nothing transaction
//! the engine runs in.

use vstd::prelude::*;

use crate::cipher::Coprocessor;
use crate::cipher::Euint128;
use crate::cipher::EUINT128_INPUT_TYPE;
use crate::cipher::extends;
use crate::errors::CipherError;
use crate::errors::ErrorCode;
use crate::errors::InstructionError;
use crate::keys::Pubkey;
use crate::ledger::IncoAccount;
use crate::ledger::check_transfer;
use crate::ledger::moved_amount;
use crate::ledger::transfer;
use crate::ledger::transfer_checks;
use crate::ledger::with_amount;

verus! {

/// The highest admissible fee rate: 10000 basis points, the whole amount.
pub const MAX_FEE_BPS: u16 = 10000;

/// One confidential liquidity pair.
#[derive(Debug)]
pub struct Pool {
    /// The admin key: liquidity, fee withdrawal and admin instructions are
    /// reserved to it. Swapping is not.
    pub authority: Pubkey,
    pub mint_a: Pubkey,
    pub mint_b: Pubkey,
    /// Encrypted units of asset A held by the pool.
    pub reserve_a: Euint128,
    /// Encrypted units of asset B held by the pool.
    pub reserve_b: Euint128,
    /// Encrypted fee units accumulated on the A side.
    pub protocol_fee_a: Euint128,
    /// Encrypted fee units accumulated on the B side.
    pub protocol_fee_b: Euint128,
    /// Plaintext fee rate in basis points, at most `MAX_FEE_BPS`.
    pub fee_bps: u16,
    /// The bump seed of the pool's derived address.
    pub bump: u8,
    pub is_paused: bool,
    pub last_update_ts: i64,
}

impl Pool {
    /// The persisted size of the record's field data, in bytes.
    pub const LEN: usize = 32 + 32 + 32 + 32 + 32 + 32 + 32 + 2 + 1 + 1 + 8;

    /// The pool's encrypted handles are live on the coprocessor and its fee
    /// rate is admissible.
    pub open spec fn wf(self, c: Coprocessor) -> bool {
        &&& c.valid_uint(self.reserve_a)
        &&& c.valid_uint(self.reserve_b)
        &&& c.valid_uint(self.protocol_fee_a)
        &&& c.valid_uint(self.protocol_fee_b)
        &&& self.fee_bps <= MAX_FEE_BPS
    }
}

/// Grants view access on a handle to `allowed`, taking the allowance
/// accounts from the instruction's trailing account list at
/// `account_offset`; fails when too few trailing accounts were supplied.
pub fn call_allow_from_remaining(
    copro: &mut Coprocessor,
    remaining_accounts: usize,
    handle: Euint128,
    allowed: Pubkey,
    account_offset: usize,
) -> (r: Result<(), InstructionError>)
    requires
        old(copro).wf(),
        old(copro).valid_uint(handle),
        account_offset + 2 <= usize::MAX,
    ensures
        final(copro).wf(),
        r is Ok <==> remaining_accounts >= account_offset + 2,
        r matches Ok(()) ==> {
            &&& final(copro).uints() == old(copro).uints()
            &&& final(copro).bools() == old(copro).bools()
            &&& final(copro).acls() == old(copro).acls().update(
                handle.id(),
                old(copro).viewers_of(handle).push(allowed),
            )
        },
        r is Err ==> r == Err::<(), InstructionError>(
            InstructionError::Amm(ErrorCode::InvalidAccessAccounts),
        ) && *final(copro) == *old(copro),
{
    if remaining_accounts < account_offset + 2 {
        return Err(InstructionError::Amm(ErrorCode::InvalidAccessAccounts));
    }
    copro.allow(handle, allowed);
    Ok(())
}

/// Creates a pool in the Active state: both reserves and both fee
/// accumulators seeded with encrypted zero, the caller recorded as
/// authority. A fee rate above `MAX_FEE_BPS` is rejected with no effect.
/// When at least 2, 4, 6 or 8 trailing accounts are supplied, view access
/// on the zero reserve-A, reserve-B, fee-A and fee-B handles respectively
/// is granted to the authority.
pub fn initialize_pool(
    copro: &mut Coprocessor,
    authority: Pubkey,
    mint_a: Pubkey,
    mint_b: Pubkey,
    fee_bps: u16,
    bump: u8,
    now_ts: i64,
    remaining_accounts: usize,
) -> (r: Result<Pool, InstructionError>)
    requires
        old(copro).wf(),
    ensures
        final(copro).wf(),
        extends(*old(copro), *final(copro)),
        r is Ok <==> fee_bps <= MAX_FEE_BPS,
        r is Err ==> r == Err::<Pool, InstructionError>(InstructionError::Amm(ErrorCode::InvalidFee))
            && *final(copro) == *old(copro),
        r matches Ok(pool) ==> {
            &&& pool.wf(*final(copro))
            &&& pool.authority == authority
            &&& pool.mint_a == mint_a
            &&& pool.mint_b == mint_b
            &&& pool.fee_bps == fee_bps
            &&& pool.bump == bump
            &&& !pool.is_paused
            &&& pool.last_update_ts == now_ts
            &&& final(copro).value_of(pool.reserve_a) == 0
            &&& final(copro).value_of(pool.reserve_b) == 0
            &&& final(copro).value_of(pool.protocol_fee_a) == 0
            &&& final(copro).value_of(pool.protocol_fee_b) == 0
            &&& remaining_accounts >= 2 ==> final(copro).viewers_of(pool.reserve_a).contains(
                authority,
            )
            &&& remaining_accounts >= 4 ==> final(copro).viewers_of(pool.reserve_b).contains(
                authority,
            )
            &&& remaining_accounts >= 6 ==> final(copro).viewers_of(pool.protocol_fee_a).contains(
                authority,
            )
            &&& remaining_accounts >= 8 ==> final(copro).viewers_of(pool.protocol_fee_b).contains(
                authority,
            )
        },
{
    if fee_bps > MAX_FEE_BPS {
        return Err(InstructionError::Amm(ErrorCode::InvalidFee));
    }
    let reserve_a = copro.as_euint128(0);
    let reserve_b = copro.as_euint128(0);
    let protocol_fee_a = copro.as_euint128(0);
    let protocol_fee_b = copro.as_euint128(0);
    let pool = Pool {
        authority,
        mint_a,
        mint_b,
        reserve_a,
        reserve_b,
        protocol_fee_a,
        protocol_fee_b,
        fee_bps,
        bump,
        is_paused: false,
        last_update_ts: now_ts,
    };
    if remaining_accounts >= 2 {
        match call_allow_from_remaining(copro, remaining_accounts, pool.reserve_a, authority, 0) {
            Ok(()) => {},
            Err(e) => {
                return Err(e);
            },
        }
        proof {
            let vs = copro.viewers_of(pool.reserve_a);
            assert(vs[vs.len() - 1] == authority);
        }
    }
    if remaining_accounts >= 4 {
        match call_allow_from_remaining(copro, remaining_accounts, pool.reserve_b, authority, 2) {
            Ok(()) => {},
            Err(e) => {
                return Err(e);
            },
        }
        proof {
            let vs = copro.viewers_of(pool.reserve_b);
            assert(vs[vs.len() - 1] == authority);
        }
    }
    if remaining_accounts >= 6 {
        match call_allow_from_remaining(
            copro,
            remaining_accounts,
            pool.protocol_fee_a,
            authority,
            4,
        ) {
            Ok(()) => {},
            Err(e) => {
                return Err(e);
            },
        }
        proof {
            let vs = copro.viewers_of(pool.protocol_fee_a);
            assert(vs[vs.len() - 1] == authority);
        }
    }
    if remaining_accounts >= 8 {
        match call_allow_from_remaining(
            copro,
            remaining_accounts,
            pool.protocol_fee_b,
            authority,
            6,
        ) {
            Ok(()) => {},
            Err(e) => {
                return Err(e);
            },
        }
        proof {
            let vs = copro.viewers_of(pool.protocol_fee_b);
            assert(vs[vs.len() - 1] == authority);
        }
    }
    Ok(pool)
}

/// The amounts a swap actually commits, after its two oblivious clamps.
/// First, when the outgoing reserve cannot cover the requested output, all
/// three amounts clamp to zero. Then, when the tentative reserves would
/// shrink the constant product (within the wrapping 128-bit
/// representation), they clamp to zero again. What survives is added to the
/// incoming reserve, taken from the outgoing one, and credited to the
/// incoming side's fee accumulator.
pub open spec fn swap_amounts(
    reserve_in: u128,
    reserve_out: u128,
    amount_in: u128,
    amount_out: u128,
    fee_amount: u128,
) -> (u128, u128, u128) {
    let a1 = if reserve_out >= amount_out {
        amount_in
    } else {
        0u128
    };
    let o1 = if reserve_out >= amount_out {
        amount_out
    } else {
        0u128
    };
    let f1 = if reserve_out >= amount_out {
        fee_amount
    } else {
        0u128
    };
    let temp_in = reserve_in.wrapping_add(a1);
    let temp_out = reserve_out.wrapping_sub(o1);
    if temp_in.wrapping_mul(temp_out) >= reserve_in.wrapping_mul(reserve_out) {
        (a1, o1, f1)
    } else {
        (0u128, 0u128, 0u128)
    }
}

/// The three caller ciphertexts of a swap are well-formed.
pub open spec fn swap_ciphertexts_ok(
    amount_in_ciphertext: Seq<u8>,
    amount_out_ciphertext: Seq<u8>,
    fee_amount_ciphertext: Seq<u8>,
    input_type: u8,
) -> bool {
    &&& amount_in_ciphertext.len() == 16
    &&& amount_out_ciphertext.len() == 16
    &&& fee_amount_ciphertext.len() == 16
    &&& input_type == EUINT128_INPUT_TYPE
}

/// Runs the oblivious-swap call chain on the coprocessor: import the three
/// caller amounts, clamp them to zero unless the outgoing reserve covers
/// the requested output, tentatively move the reserves, clamp again unless
/// the constant product is preserved, and recompute the reserves and the
/// incoming side's fee accumulator from whatever survived. Returns the new
/// incoming-reserve, outgoing-reserve and fee-accumulator handles; the
/// whole chain either runs or, on malformed ciphertext material, leaves the
/// coprocessor untouched.
pub fn compute_swap_updates(
    copro: &mut Coprocessor,
    reserve_in: Euint128,
    reserve_out: Euint128,
    protocol_fee_in: Euint128,
    amount_in_ciphertext: &[u8],
    amount_out_ciphertext: &[u8],
    fee_amount_ciphertext: &[u8],
    input_type: u8,
) -> (r: Result<(Euint128, Euint128, Euint128), InstructionError>)
    requires
        old(copro).wf(),
        old(copro).valid_uint(reserve_in),
        old(copro).valid_uint(reserve_out),
        old(copro).valid_uint(protocol_fee_in),
    ensures
        final(copro).wf(),
        extends(*old(copro), *final(copro)),
        r is Ok <==> swap_ciphertexts_ok(
            amount_in_ciphertext@,
            amount_out_ciphertext@,
            fee_amount_ciphertext@,
            input_type,
        ),
        r is Err ==> r == Err::<(Euint128, Euint128, Euint128), InstructionError>(
            InstructionError::Cipher(CipherError::InvalidCiphertext),
        ) && *final(copro) == *old(copro),
        r matches Ok((new_reserve_in, new_reserve_out, new_protocol_fee)) ==> {
            let rin = old(copro).value_of(reserve_in);
            let rout = old(copro).value_of(reserve_out);
            let pf = old(copro).value_of(protocol_fee_in);
            let ain = vstd::bytes::spec_u128_from_le_bytes(amount_in_ciphertext@);
            let aout = vstd::bytes::spec_u128_from_le_bytes(amount_out_ciphertext@);
            let afee = vstd::bytes::spec_u128_from_le_bytes(fee_amount_ciphertext@);
            let committed = swap_amounts(rin, rout, ain, aout, afee);
            &&& final(copro).valid_uint(new_reserve_in)
            &&& final(copro).valid_uint(new_reserve_out)
            &&& final(copro).valid_uint(new_protocol_fee)
            &&& final(copro).value_of(new_reserve_in) == rin.wrapping_add(committed.0)
            &&& final(copro).value_of(new_reserve_out) == rout.wrapping_sub(committed.1)
            &&& final(copro).value_of(new_protocol_fee) == pf.wrapping_add(committed.2)
        },
{
    if amount_in_ciphertext.len() != 16 || amount_out_ciphertext.len() != 16
        || fee_amount_ciphertext.len() != 16 || input_type != EUINT128_INPUT_TYPE {
        return Err(InstructionError::Cipher(CipherError::InvalidCiphertext));
    }
    let mut amount_in = match copro.new_euint128(amount_in_ciphertext, input_type) {
        Ok(h) => h,
        Err(_) => {
            return Err(InstructionError::Cipher(CipherError::InvalidCiphertext));
        },
    };
    let mut amount_out = match copro.new_euint128(amount_out_ciphertext, input_type) {
        Ok(h) => h,
        Err(_) => {
            return Err(InstructionError::Cipher(CipherError::InvalidCiphertext));
        },
    };
    let mut fee_amount = match copro.new_euint128(fee_amount_ciphertext, input_type) {
        Ok(h) => h,
        Err(_) => {
            return Err(InstructionError::Cipher(CipherError::InvalidCiphertext));
        },
    };
    let zero = copro.as_euint128(0);

    let has_liquidity = copro.e_ge(reserve_out, amount_out);
    amount_in = copro.e_select(has_liquidity, amount_in, zero);
    amount_out = copro.e_select(has_liquidity, amount_out, zero);
    fee_amount = copro.e_select(has_liquidity, fee_amount, zero);

    let temp_reserve_in = copro.e_add(reserve_in, amount_in);
    let temp_reserve_out = copro.e_sub(reserve_out, amount_out);

    let old_k = copro.e_mul(reserve_in, reserve_out);
    let new_k = copro.e_mul(temp_reserve_in, temp_reserve_out);
    let k_ok = copro.e_ge(new_k, old_k);

    amount_in = copro.e_select(k_ok, amount_in, zero);
    amount_out = copro.e_select(k_ok, amount_out, zero);
    fee_amount = copro.e_select(k_ok, fee_amount, zero);

    let new_reserve_in = copro.e_add(reserve_in, amount_in);
    let new_reserve_out = copro.e_sub(reserve_out, amount_out);
    let new_protocol_fee = copro.e_add(protocol_fee_in, fee_amount);

    Ok((new_reserve_in, new_reserve_out, new_protocol_fee))
}

/// A liquidity or withdrawal ciphertext pair is well-formed.
pub open spec fn pair_ciphertexts_ok(
    amount_a_ciphertext: Seq<u8>,
    amount_b_ciphertext: Seq<u8>,
    input_type: u8,
) -> bool {
    &&& amount_a_ciphertext.len() == 16
    &&& amount_b_ciphertext.len() == 16
    &&& input_type == EUINT128_INPUT_TYPE
}

/// Deposits both assets into the pool: moves the encrypted amounts from the
/// authority's token accounts into the pool's, then grows both reserves by
/// the full imported amounts. Authority only; the pool must not be paused.
/// No invariant check is applied to deposits. When at least 10 or 12
/// trailing accounts are supplied, view access on the new reserve-A and
/// reserve-B handles is granted to the authority.
pub fn add_liquidity(
    pool: &mut Pool,
    copro: &mut Coprocessor,
    user_token_a: &mut IncoAccount,
    user_token_b: &mut IncoAccount,
    pool_token_a: &mut IncoAccount,
    pool_token_b: &mut IncoAccount,
    authority: Pubkey,
    amount_a_ciphertext: &[u8],
    amount_b_ciphertext: &[u8],
    input_type: u8,
    now_ts: i64,
    remaining_accounts: usize,
) -> (r: Result<(), InstructionError>)
    requires
        old(copro).wf(),
        old(pool).wf(*old(copro)),
        old(user_token_a).wf(*old(copro)),
        old(user_token_b).wf(*old(copro)),
        old(pool_token_a).wf(*old(copro)),
        old(pool_token_b).wf(*old(copro)),
        old(user_token_a).mint == old(pool).mint_a,
        old(user_token_b).mint == old(pool).mint_b,
        old(pool_token_a).mint == old(pool).mint_a,
        old(pool_token_b).mint == old(pool).mint_b,
    ensures
        final(copro).wf(),
        extends(*old(copro), *final(copro)),
        final(pool).wf(*final(copro)),
        final(user_token_a).wf(*final(copro)),
        final(user_token_b).wf(*final(copro)),
        final(pool_token_a).wf(*final(copro)),
        final(pool_token_b).wf(*final(copro)),
        ({
            let ct_ok = pair_ciphertexts_ok(amount_a_ciphertext@, amount_b_ciphertext@, input_type);
            let checks_a = transfer_checks(*old(user_token_a), *old(pool_token_a), authority);
            let checks_b = transfer_checks(*old(user_token_b), *old(pool_token_b), authority);
            let va = vstd::bytes::spec_u128_from_le_bytes(amount_a_ciphertext@);
            let vb = vstd::bytes::spec_u128_from_le_bytes(amount_b_ciphertext@);
            let ra0 = old(copro).value_of(old(pool).reserve_a);
            let rb0 = old(copro).value_of(old(pool).reserve_b);
            let ua0 = old(copro).value_of(old(user_token_a).amount);
            let ub0 = old(copro).value_of(old(user_token_b).amount);
            let pa0 = old(copro).value_of(old(pool_token_a).amount);
            let pb0 = old(copro).value_of(old(pool_token_b).amount);
            let ma = moved_amount(ua0, va);
            let mb = moved_amount(ub0, vb);
            match r {
                Ok(()) => {
                    &&& authority == old(pool).authority
                    &&& !old(pool).is_paused
                    &&& ct_ok
                    &&& checks_a is None
                    &&& checks_b is None
                    &&& *final(pool) == (Pool {
                        reserve_a: final(pool).reserve_a,
                        reserve_b: final(pool).reserve_b,
                        last_update_ts: now_ts,
                        ..*old(pool)
                    })
                    &&& final(copro).value_of(final(pool).reserve_a) == ra0.wrapping_add(va)
                    &&& final(copro).value_of(final(pool).reserve_b) == rb0.wrapping_add(vb)
                    &&& final(copro).value_of(final(pool).protocol_fee_a) == old(copro).value_of(
                        old(pool).protocol_fee_a,
                    )
                    &&& final(copro).value_of(final(pool).protocol_fee_b) == old(copro).value_of(
                        old(pool).protocol_fee_b,
                    )
                    &&& *final(user_token_a) == with_amount(
                        *old(user_token_a),
                        final(user_token_a).amount,
                    )
                    &&& *final(user_token_b) == with_amount(
                        *old(user_token_b),
                        final(user_token_b).amount,
                    )
                    &&& *final(pool_token_a) == with_amount(
                        *old(pool_token_a),
                        final(pool_token_a).amount,
                    )
                    &&& *final(pool_token_b) == with_amount(
                        *old(pool_token_b),
                        final(pool_token_b).amount,
                    )
                    &&& final(copro).value_of(final(user_token_a).amount) == ua0 - ma
                    &&& final(copro).value_of(final(pool_token_a).amount) == pa0.wrapping_add(ma)
                    &&& final(copro).value_of(final(user_token_b).amount) == ub0 - mb
                    &&& final(copro).value_of(final(pool_token_b).amount) == pb0.wrapping_add(mb)
                    &&& remaining_accounts >= 10 ==> final(copro).viewers_of(
                        final(pool).reserve_a,
                    ).contains(authority)
                    &&& remaining_accounts >= 12 ==> final(copro).viewers_of(
                        final(pool).reserve_b,
                    ).contains(authority)
                },
                Err(e) => {
                    &&& if authority != old(pool).authority {
                        e == InstructionError::Amm(ErrorCode::Unauthorized)
                    } else if old(pool).is_paused {
                        e == InstructionError::Amm(ErrorCode::PoolPaused)
                    } else if !ct_ok {
                        e == InstructionError::Cipher(CipherError::InvalidCiphertext)
                    } else {
                        match checks_a {
                            Some(c) => e == InstructionError::Cpi(c),
                            None => checks_b matches Some(c2) && e == InstructionError::Cpi(c2),
                        }
                    }
                    &&& *final(pool) == *old(pool)
                    &&& *final(copro) == *old(copro)
                    &&& *final(user_token_a) == *old(user_token_a)
                    &&& *final(user_token_b) == *old(user_token_b)
                    &&& *final(pool_token_a) == *old(pool_token_a)
                    &&& *final(pool_token_b) == *old(pool_token_b)
                },
            }
        }),
{
    if !(pool.authority == authority) {
        return Err(InstructionError::Amm(ErrorCode::Unauthorized));
    }
    if pool.is_paused {
        return Err(InstructionError::Amm(ErrorCode::PoolPaused));
    }
    if amount_a_ciphertext.len() != 16 || amount_b_ciphertext.len() != 16 || input_type
        != EUINT128_INPUT_TYPE {
        return Err(InstructionError::Cipher(CipherError::InvalidCiphertext));
    }
    if let Some(e) = check_transfer(user_token_a, pool_token_a, authority) {
        return Err(InstructionError::Cpi(e));
    }
    if let Some(e) = check_transfer(user_token_b, pool_token_b, authority) {
        return Err(InstructionError::Cpi(e));
    }
    let amount_a = match copro.new_euint128(amount_a_ciphertext, input_type) {
        Ok(h) => h,
        Err(_) => {
            return Err(InstructionError::Cipher(CipherError::InvalidCiphertext));
        },
    };
    let amount_b = match copro.new_euint128(amount_b_ciphertext, input_type) {
        Ok(h) => h,
        Err(_) => {
            return Err(InstructionError::Cipher(CipherError::InvalidCiphertext));
        },
    };
    match transfer(copro, user_token_a, pool_token_a, authority, amount_a_ciphertext, input_type) {
        Ok(()) => {},
        Err(e) => {
            return Err(e);
        },
    }
    match transfer(copro, user_token_b, pool_token_b, authority, amount_b_ciphertext, input_type) {
        Ok(()) => {},
        Err(e) => {
            return Err(e);
        },
    }
    let new_reserve_a = copro.e_add(pool.reserve_a, amount_a);
    let new_reserve_b = copro.e_add(pool.reserve_b, amount_b);
    pool.reserve_a = new_reserve_a;
    pool.reserve_b = new_reserve_b;
    pool.last_update_ts = now_ts;
    if remaining_accounts >= 10 {
        match call_allow_from_remaining(
            copro,
            remaining_accounts,
            pool.reserve_a,
            pool.authority,
            8,
        ) {
            Ok(()) => {},
            Err(e) => {
                return Err(e);
            },
        }
        proof {
            let vs = copro.viewers_of(pool.reserve_a);
            assert(vs[vs.len() - 1] == authority);
        }
    }
    if remaining_accounts >= 12 {
        match call_allow_from_remaining(
            copro,
            remaining_accounts,
            pool.reserve_b,
            pool.authority,
            10,
        ) {
            Ok(()) => {},
            Err(e) => {
                return Err(e);
            },
        }
        proof {
            let vs = copro.viewers_of(pool.reserve_b);
            assert(vs[vs.len() - 1] == authority);
        }
    }
    Ok(())
}

/// Withdraws liquidity, each asset independently clamped: a request above
/// the reserve obliviously becomes zero rather than an error, so success
/// never reveals whether the reserve covered it. The ledger then moves the
/// requested amounts from the pool's token accounts back to the user's,
/// signed on the pool's behalf (`pool_address` is the pool's own derived
/// address, which owns its token accounts); the ledger's own clamp
/// independently prevents overdraft at the account level. Authority only;
/// the pool must not be paused. When at least 10 or 12 trailing accounts
/// are supplied, view access on the new reserve handles is granted to the
/// authority.
pub fn remove_liquidity(
    pool: &mut Pool,
    pool_address: Pubkey,
    copro: &mut Coprocessor,
    user_token_a: &mut IncoAccount,
    user_token_b: &mut IncoAccount,
    pool_token_a: &mut IncoAccount,
    pool_token_b: &mut IncoAccount,
    authority: Pubkey,
    amount_a_ciphertext: &[u8],
    amount_b_ciphertext: &[u8],
    input_type: u8,
    now_ts: i64,
    remaining_accounts: usize,
) -> (r: Result<(), InstructionError>)
    requires
        old(copro).wf(),
        old(pool).wf(*old(copro)),
        old(user_token_a).wf(*old(copro)),
        old(user_token_b).wf(*old(copro)),
        old(pool_token_a).wf(*old(copro)),
        old(pool_token_b).wf(*old(copro)),
        old(user_token_a).mint == old(pool).mint_a,
        old(user_token_b).mint == old(pool).mint_b,
        old(pool_token_a).mint == old(pool).mint_a,
        old(pool_token_b).mint == old(pool).mint_b,
    ensures
        final(copro).wf(),
        extends(*old(copro), *final(copro)),
        final(pool).wf(*final(copro)),
        final(user_token_a).wf(*final(copro)),
        final(user_token_b).wf(*final(copro)),
        final(pool_token_a).wf(*final(copro)),
        final(pool_token_b).wf(*final(copro)),
        ({
            let ct_ok = pair_ciphertexts_ok(amount_a_ciphertext@, amount_b_ciphertext@, input_type);
            let checks_a = transfer_checks(*old(pool_token_a), *old(user_token_a), pool_address);
            let checks_b = transfer_checks(*old(pool_token_b), *old(user_token_b), pool_address);
            let va = vstd::bytes::spec_u128_from_le_bytes(amount_a_ciphertext@);
            let vb = vstd::bytes::spec_u128_from_le_bytes(amount_b_ciphertext@);
            let ra0 = old(copro).value_of(old(pool).reserve_a);
            let rb0 = old(copro).value_of(old(pool).reserve_b);
            let ua0 = old(copro).value_of(old(user_token_a).amount);
            let ub0 = old(copro).value_of(old(user_token_b).amount);
            let pa0 = old(copro).value_of(old(pool_token_a).amount);
            let pb0 = old(copro).value_of(old(pool_token_b).amount);
            let ma = moved_amount(pa0, va);
            let mb = moved_amount(pb0, vb);
            match r {
                Ok(()) => {
                    &&& authority == old(pool).authority
                    &&& !old(pool).is_paused
                    &&& ct_ok
                    &&& checks_a is None
                    &&& checks_b is None
                    &&& *final(pool) == (Pool {
                        reserve_a: final(pool).reserve_a,
                        reserve_b: final(pool).reserve_b,
                        last_update_ts: now_ts,
                        ..*old(pool)
                    })
                    &&& final(copro).value_of(final(pool).reserve_a) == ra0 - moved_amount(ra0, va)
                    &&& final(copro).value_of(final(pool).reserve_b) == rb0 - moved_amount(rb0, vb)
                    &&& final(copro).value_of(final(pool).protocol_fee_a) == old(copro).value_of(
                        old(pool).protocol_fee_a,
                    )
                    &&& final(copro).value_of(final(pool).protocol_fee_b) == old(copro).value_of(
                        old(pool).protocol_fee_b,
                    )
                    &&& *final(user_token_a) == with_amount(
                        *old(user_token_a),
                        final(user_token_a).amount,
                    )
                    &&& *final(user_token_b) == with_amount(
                        *old(user_token_b),
                        final(user_token_b).amount,
                    )
                    &&& *final(pool_token_a) == with_amount(
                        *old(pool_token_a),
                        final(pool_token_a).amount,
                    )
                    &&& *final(pool_token_b) == with_amount(
                        *old(pool_token_b),
                        final(pool_token_b).amount,
                    )
                    &&& final(copro).value_of(final(pool_token_a).amount) == pa0 - ma
                    &&& final(copro).value_of(final(user_token_a).amount) == ua0.wrapping_add(ma)
                    &&& final(copro).value_of(final(pool_token_b).amount) == pb0 - mb
                    &&& final(copro).value_of(final(user_token_b).amount) == ub0.wrapping_add(mb)
                    &&& remaining_accounts >= 10 ==> final(copro).viewers_of(
                        final(pool).reserve_a,
                    ).contains(authority)
                    &&& remaining_accounts >= 12 ==> final(copro).viewers_of(
                        final(pool).reserve_b,
                    ).contains(authority)
                },
                Err(e) => {
                    &&& if authority != old(pool).authority {
                        e == InstructionError::Amm(ErrorCode::Unauthorized)
                    } else if old(pool).is_paused {
                        e == InstructionError::Amm(ErrorCode::PoolPaused)
                    } else if !ct_ok {
                        e == InstructionError::Cipher(CipherError::InvalidCiphertext)
                    } else {
                        match checks_a {
                            Some(c) => e == InstructionError::Cpi(c),
                            None => checks_b matches Some(c2) && e == InstructionError::Cpi(c2),
                        }
                    }
                    &&& *final(pool) == *old(pool)
                    &&& *final(copro) == *old(copro)
                    &&& *final(user_token_a) == *old(user_token_a)
                    &&& *final(user_token_b) == *old(user_token_b)
                    &&& *final(pool_token_a) == *old(pool_token_a)
                    &&& *final(pool_token_b) == *old(pool_token_b)
                },
            }
        }),
{
    if !(pool.authority == authority) {
        return Err(InstructionError::Amm(ErrorCode::Unauthorized));
    }
    if pool.is_paused {
        return Err(InstructionError::Amm(ErrorCode::PoolPaused));
    }
    if amount_a_ciphertext.len() != 16 || amount_b_ciphertext.len() != 16 || input_type
        != EUINT128_INPUT_TYPE {
        return Err(InstructionError::Cipher(CipherError::InvalidCiphertext));
    }
    if let Some(e) = check_transfer(pool_token_a, user_token_a, pool_address) {
        return Err(InstructionError::Cpi(e));
    }
    if let Some(e) = check_transfer(pool_token_b, user_token_b, pool_address) {
        return Err(InstructionError::Cpi(e));
    }
    let amount_a = match copro.new_euint128(amount_a_ciphertext, input_type) {
        Ok(h) => h,
        Err(_) => {
            return Err(InstructionError::Cipher(CipherError::InvalidCiphertext));
        },
    };
    let amount_b = match copro.new_euint128(amount_b_ciphertext, input_type) {
        Ok(h) => h,
        Err(_) => {
            return Err(InstructionError::Cipher(CipherError::InvalidCiphertext));
        },
    };
    let zero = copro.as_euint128(0);
    let has_a = copro.e_ge(pool.reserve_a, amount_a);
    let has_b = copro.e_ge(pool.reserve_b, amount_b);
    let safe_a = copro.e_select(has_a, amount_a, zero);
    let safe_b = copro.e_select(has_b, amount_b, zero);
    let new_reserve_a = copro.e_sub(pool.reserve_a, safe_a);
    let new_reserve_b = copro.e_sub(pool.reserve_b, safe_b);
    pool.reserve_a = new_reserve_a;
    pool.reserve_b = new_reserve_b;
    pool.last_update_ts = now_ts;
    match transfer(copro, pool_token_a, user_token_a, pool_address, amount_a_ciphertext, input_type)
    {
        Ok(()) => {},
        Err(e) => {
            return Err(e);
        },
    }
    match transfer(copro, pool_token_b, user_token_b, pool_address, amount_b_ciphertext, input_type)
    {
        Ok(()) => {},
        Err(e) => {
            return Err(e);
        },
    }
    if remaining_accounts >= 10 {
        match call_allow_from_remaining(
            copro,
            remaining_accounts,
            pool.reserve_a,
            pool.authority,
            8,
        ) {
            Ok(()) => {},
            Err(e) => {
                return Err(e);
            },
        }
        proof {
            let vs = copro.viewers_of(pool.reserve_a);
            assert(vs[vs.len() - 1] == authority);
        }
    }
    if remaining_accounts >= 12 {
        match call_allow_from_remaining(
            copro,
            remaining_accounts,
            pool.reserve_b,
            pool.authority,
            10,
        ) {
            Ok(()) => {},
            Err(e) => {
                return Err(e);
            },
        }
        proof {
            let vs = copro.viewers_of(pool.reserve_b);
            assert(vs[vs.len() - 1] == authority);
        }
    }
    Ok(())
}

/// Draws accumulated protocol fees down, each side independently clamped:
/// a request above the accumulator obliviously becomes zero rather than an
/// error, so success never reveals whether the fees covered it. Authority
/// only; allowed while paused. No token transfer is performed — fee
/// settlement is an accumulator decrement. When at least 2 or 4 trailing
/// accounts are supplied, view access on the new fee-A and fee-B handles
/// is granted to the authority.
pub fn withdraw_protocol_fees(
    pool: &mut Pool,
    copro: &mut Coprocessor,
    authority: Pubkey,
    amount_a_ciphertext: &[u8],
    amount_b_ciphertext: &[u8],
    input_type: u8,
    now_ts: i64,
    remaining_accounts: usize,
) -> (r: Result<(), InstructionError>)
    requires
        old(copro).wf(),
        old(pool).wf(*old(copro)),
    ensures
        final(copro).wf(),
        extends(*old(copro), *final(copro)),
        final(pool).wf(*final(copro)),
        ({
            let ct_ok = pair_ciphertexts_ok(amount_a_ciphertext@, amount_b_ciphertext@, input_type);
            let va = vstd::bytes::spec_u128_from_le_bytes(amount_a_ciphertext@);
            let vb = vstd::bytes::spec_u128_from_le_bytes(amount_b_ciphertext@);
            let fa0 = old(copro).value_of(old(pool).protocol_fee_a);
            let fb0 = old(copro).value_of(old(pool).protocol_fee_b);
            match r {
                Ok(()) => {
                    &&& authority == old(pool).authority
                    &&& ct_ok
                    &&& *final(pool) == (Pool {
                        protocol_fee_a: final(pool).protocol_fee_a,
                        protocol_fee_b: final(pool).protocol_fee_b,
                        last_update_ts: now_ts,
                        ..*old(pool)
                    })
                    &&& final(copro).value_of(final(pool).protocol_fee_a) == fa0 - moved_amount(
                        fa0,
                        va,
                    )
                    &&& final(copro).value_of(final(pool).protocol_fee_b) == fb0 - moved_amount(
                        fb0,
                        vb,
                    )
                    &&& final(copro).value_of(final(pool).reserve_a) == old(copro).value_of(
                        old(pool).reserve_a,
                    )
                    &&& final(copro).value_of(final(pool).reserve_b) == old(copro).value_of(
                        old(pool).reserve_b,
                    )
                    &&& remaining_accounts >= 2 ==> final(copro).viewers_of(
                        final(pool).protocol_fee_a,
                    ).contains(authority)
                    &&& remaining_accounts >= 4 ==> final(copro).viewers_of(
                        final(pool).protocol_fee_b,
                    ).contains(authority)
                },
                Err(e) => {
                    &&& if authority != old(pool).authority {
                        e == InstructionError::Amm(ErrorCode::Unauthorized)
                    } else {
                        !ct_ok && e == InstructionError::Cipher(CipherError::InvalidCiphertext)
                    }
                    &&& *final(pool) == *old(pool)
                    &&& *final(copro) == *old(copro)
                },
            }
        }),
{
    if !(pool.authority == authority) {
        return Err(InstructionError::Amm(ErrorCode::Unauthorized));
    }
    if amount_a_ciphertext.len() != 16 || amount_b_ciphertext.len() != 16 || input_type
        != EUINT128_INPUT_TYPE {
        return Err(InstructionError::Cipher(CipherError::InvalidCiphertext));
    }
    let amount_a = match copro.new_euint128(amount_a_ciphertext, input_type) {
        Ok(h) => h,
        Err(_) => {
            return Err(InstructionError::Cipher(CipherError::InvalidCiphertext));
        },
    };
    let amount_b = match copro.new_euint128(amount_b_ciphertext, input_type) {
        Ok(h) => h,
        Err(_) => {
            return Err(InstructionError::Cipher(CipherError::InvalidCiphertext));
        },
    };
    let zero = copro.as_euint128(0);
    let has_a = copro.e_ge(pool.protocol_fee_a, amount_a);
    let has_b = copro.e_ge(pool.protocol_fee_b, amount_b);
    let safe_a = copro.e_select(has_a, amount_a, zero);
    let safe_b = copro.e_select(has_b, amount_b, zero);
    let new_fee_a = copro.e_sub(pool.protocol_fee_a, safe_a);
    let new_fee_b = copro.e_sub(pool.protocol_fee_b, safe_b);
    pool.protocol_fee_a = new_fee_a;
    pool.protocol_fee_b = new_fee_b;
    pool.last_update_ts = now_ts;
    if remaining_accounts >= 2 {
        match call_allow_from_remaining(
            copro,
            remaining_accounts,
            pool.protocol_fee_a,
            pool.authority,
            0,
        ) {
            Ok(()) => {},
            Err(e) => {
                return Err(e);
            },
        }
        proof {
            let vs = copro.viewers_of(pool.protocol_fee_a);
            assert(vs[vs.len() - 1] == authority);
        }
    }
    if remaining_accounts >= 4 {
        match call_allow_from_remaining(
            copro,
            remaining_accounts,
            pool.protocol_fee_b,
            pool.authority,
            2,
        ) {
            Ok(()) => {},
            Err(e) => {
                return Err(e);
            },
        }
        proof {
            let vs = copro.viewers_of(pool.protocol_fee_b);
            assert(vs[vs.len() - 1] == authority);
        }
    }
    Ok(())
}

/// Swaps an exact encrypted input for an encrypted output. Open to any
/// holder of matching token accounts — the pool authority is not required;
/// `authority` here is the caller whose source account funds the input
/// leg, and the output leg is signed on the pool's behalf through
/// `pool_address`. The pool must not be paused. The committed amounts are
/// the caller's requests after the two oblivious clamps of
/// `swap_amounts`: a trade the outgoing reserve cannot cover, or one that
/// would shrink the constant product, silently commits as a zero-amount
/// trade instead of failing, and the caller's `amount_in_ciphertext` is
/// taken net of fees with `fee_amount_ciphertext` credited to the incoming
/// side's accumulator. The two ledger legs always move the caller's
/// requested amounts, subject only to the ledger's own per-account clamp.
/// When at least 10, 12, 14 or 16 trailing accounts are supplied, view
/// access on the pool's reserve-A, reserve-B, fee-A and fee-B handles is
/// granted to the pool authority.
#[verifier::rlimit(100)]
pub fn swap_exact_in(
    pool: &mut Pool,
    pool_address: Pubkey,
    copro: &mut Coprocessor,
    user_token_a: &mut IncoAccount,
    user_token_b: &mut IncoAccount,
    pool_token_a: &mut IncoAccount,
    pool_token_b: &mut IncoAccount,
    authority: Pubkey,
    amount_in_ciphertext: &[u8],
    amount_out_ciphertext: &[u8],
    fee_amount_ciphertext: &[u8],
    input_type: u8,
    a_to_b: bool,
    now_ts: i64,
    remaining_accounts: usize,
) -> (r: Result<(), InstructionError>)
    requires
        old(copro).wf(),
        old(pool).wf(*old(copro)),
        old(user_token_a).wf(*old(copro)),
        old(user_token_b).wf(*old(copro)),
        old(pool_token_a).wf(*old(copro)),
        old(pool_token_b).wf(*old(copro)),
        old(user_token_a).mint == old(pool).mint_a,
        old(user_token_b).mint == old(pool).mint_b,
        old(pool_token_a).mint == old(pool).mint_a,
        old(pool_token_b).mint == old(pool).mint_b,
    ensures
        final(copro).wf(),
        extends(*old(copro), *final(copro)),
        final(pool).wf(*final(copro)),
        final(user_token_a).wf(*final(copro)),
        final(user_token_b).wf(*final(copro)),
        final(pool_token_a).wf(*final(copro)),
        final(pool_token_b).wf(*final(copro)),
        ({
            let ct_ok = swap_ciphertexts_ok(
                amount_in_ciphertext@,
                amount_out_ciphertext@,
                fee_amount_ciphertext@,
                input_type,
            );
            let user_in0 = if a_to_b {
                *old(user_token_a)
            } else {
                *old(user_token_b)
            };
            let user_out0 = if a_to_b {
                *old(user_token_b)
            } else {
                *old(user_token_a)
            };
            let pool_in0 = if a_to_b {
                *old(pool_token_a)
            } else {
                *old(pool_token_b)
            };
            let pool_out0 = if a_to_b {
                *old(pool_token_b)
            } else {
                *old(pool_token_a)
            };
            let checks_in = transfer_checks(user_in0, pool_in0, authority);
            let checks_out = transfer_checks(pool_out0, user_out0, pool_address);
            let ain = vstd::bytes::spec_u128_from_le_bytes(amount_in_ciphertext@);
            let aout = vstd::bytes::spec_u128_from_le_bytes(amount_out_ciphertext@);
            let afee = vstd::bytes::spec_u128_from_le_bytes(fee_amount_ciphertext@);
            let rin0 = if a_to_b {
                old(copro).value_of(old(pool).reserve_a)
            } else {
                old(copro).value_of(old(pool).reserve_b)
            };
            let rout0 = if a_to_b {
                old(copro).value_of(old(pool).reserve_b)
            } else {
                old(copro).value_of(old(pool).reserve_a)
            };
            let pf0 = if a_to_b {
                old(copro).value_of(old(pool).protocol_fee_a)
            } else {
                old(copro).value_of(old(pool).protocol_fee_b)
            };
            let committed = swap_amounts(rin0, rout0, ain, aout, afee);
            let ui0 = old(copro).value_of(user_in0.amount);
            let uo0 = old(copro).value_of(user_out0.amount);
            let pi0 = old(copro).value_of(pool_in0.amount);
            let po0 = old(copro).value_of(pool_out0.amount);
            let m_in = moved_amount(ui0, ain);
            let m_out = moved_amount(po0, aout);
            match r {
                Ok(()) => {
                    &&& !old(pool).is_paused
                    &&& ct_ok
                    &&& checks_in is None
                    &&& checks_out is None
                    &&& *final(pool) == (Pool {
                        reserve_a: final(pool).reserve_a,
                        reserve_b: final(pool).reserve_b,
                        protocol_fee_a: final(pool).protocol_fee_a,
                        protocol_fee_b: final(pool).protocol_fee_b,
                        last_update_ts: now_ts,
                        ..*old(pool)
                    })
                    &&& final(copro).value_of(
                        if a_to_b {
                            final(pool).reserve_a
                        } else {
                            final(pool).reserve_b
                        },
                    ) == rin0.wrapping_add(committed.0)
                    &&& final(copro).value_of(
                        if a_to_b {
                            final(pool).reserve_b
                        } else {
                            final(pool).reserve_a
                        },
                    ) == rout0.wrapping_sub(committed.1)
                    &&& final(copro).value_of(
                        if a_to_b {
                            final(pool).protocol_fee_a
                        } else {
                            final(pool).protocol_fee_b
                        },
                    ) == pf0.wrapping_add(committed.2)
                    &&& final(copro).value_of(
                        if a_to_b {
                            final(pool).protocol_fee_b
                        } else {
                            final(pool).protocol_fee_a
                        },
                    ) == (if a_to_b {
                        old(copro).value_of(old(pool).protocol_fee_b)
                    } else {
                        old(copro).value_of(old(pool).protocol_fee_a)
                    })
                    &&& *final(user_token_a) == with_amount(
                        *old(user_token_a),
                        final(user_token_a).amount,
                    )
                    &&& *final(user_token_b) == with_amount(
                        *old(user_token_b),
                        final(user_token_b).amount,
                    )
                    &&& *final(pool_token_a) == with_amount(
                        *old(pool_token_a),
                        final(pool_token_a).amount,
                    )
                    &&& *final(pool_token_b) == with_amount(
                        *old(pool_token_b),
                        final(pool_token_b).amount,
                    )
                    &&& final(copro).value_of(
                        if a_to_b {
                            final(user_token_a).amount
                        } else {
                            final(user_token_b).amount
                        },
                    ) == ui0 - m_in
                    &&& final(copro).value_of(
                        if a_to_b {
                            final(pool_token_a).amount
                        } else {
                            final(pool_token_b).amount
                        },
                    ) == pi0.wrapping_add(m_in)
                    &&& final(copro).value_of(
                        if a_to_b {
                            final(pool_token_b).amount
                        } else {
                            final(pool_token_a).amount
                        },
                    ) == po0 - m_out
                    &&& final(copro).value_of(
                        if a_to_b {
                            final(user_token_b).amount
                        } else {
                            final(user_token_a).amount
                        },
                    ) == uo0.wrapping_add(m_out)
                    &&& remaining_accounts >= 10 ==> final(copro).viewers_of(
                        final(pool).reserve_a,
                    ).contains(old(pool).authority)
                    &&& remaining_accounts >= 12 ==> final(copro).viewers_of(
                        final(pool).reserve_b,
                    ).contains(old(pool).authority)
                    &&& remaining_accounts >= 14 ==> final(copro).viewers_of(
                        final(pool).protocol_fee_a,
                    ).contains(old(pool).authority)
                    &&& remaining_accounts >= 16 ==> final(copro).viewers_of(
                        final(pool).protocol_fee_b,
                    ).contains(old(pool).authority)
                },
                Err(e) => {
                    &&& if old(pool).is_paused {
                        e == InstructionError::Amm(ErrorCode::PoolPaused)
                    } else if !ct_ok {
                        e == InstructionError::Cipher(CipherError::InvalidCiphertext)
                    } else {
                        match checks_in {
                            Some(c) => e == InstructionError::Cpi(c),
                            None => checks_out matches Some(c2) && e == InstructionError::Cpi(c2),
                        }
                    }
                    &&& *final(pool) == *old(pool)
                    &&& *final(copro) == *old(copro)
                    &&& *final(user_token_a) == *old(user_token_a)
                    &&& *final(user_token_b) == *old(user_token_b)
                    &&& *final(pool_token_a) == *old(pool_token_a)
                    &&& *final(pool_token_b) == *old(pool_token_b)
                },
            }
        }),
{
    if pool.is_paused {
        return Err(InstructionError::Amm(ErrorCode::PoolPaused));
    }
    if amount_in_ciphertext.len() != 16 || amount_out_ciphertext.len() != 16
        || fee_amount_ciphertext.len() != 16 || input_type != EUINT128_INPUT_TYPE {
        return Err(InstructionError::Cipher(CipherError::InvalidCiphertext));
    }
    let checks_in = if a_to_b {
        check_transfer(user_token_a, pool_token_a, authority)
    } else {
        check_transfer(user_token_b, pool_token_b, authority)
    };
    if let Some(e) = checks_in {
        return Err(InstructionError::Cpi(e));
    }
    let checks_out = if a_to_b {
        check_transfer(pool_token_b, user_token_b, pool_address)
    } else {
        check_transfer(pool_token_a, user_token_a, pool_address)
    };
    if let Some(e) = checks_out {
        return Err(InstructionError::Cpi(e));
    }
    let (reserve_in, reserve_out, protocol_fee_in) = if a_to_b {
        (pool.reserve_a, pool.reserve_b, pool.protocol_fee_a)
    } else {
        (pool.reserve_b, pool.reserve_a, pool.protocol_fee_b)
    };
    let updates = match compute_swap_updates(
        copro,
        reserve_in,
        reserve_out,
        protocol_fee_in,
        amount_in_ciphertext,
        amount_out_ciphertext,
        fee_amount_ciphertext,
        input_type,
    ) {
        Ok(u) => u,
        Err(e) => {
            return Err(e);
        },
    };
    let (new_reserve_in, new_reserve_out, new_protocol_fee) = updates;
    let transferred_in = if a_to_b {
        transfer(copro, user_token_a, pool_token_a, authority, amount_in_ciphertext, input_type)
    } else {
        transfer(copro, user_token_b, pool_token_b, authority, amount_in_ciphertext, input_type)
    };
    match transferred_in {
        Ok(()) => {},
        Err(e) => {
            return Err(e);
        },
    }
    let transferred_out = if a_to_b {
        transfer(copro, pool_token_b, user_token_b, pool_address, amount_out_ciphertext, input_type)
    } else {
        transfer(copro, pool_token_a, user_token_a, pool_address, amount_out_ciphertext, input_type)
    };
    match transferred_out {
        Ok(()) => {},
        Err(e) => {
            return Err(e);
        },
    }
    if a_to_b {
        pool.reserve_a = new_reserve_in;
        pool.reserve_b = new_reserve_out;
        pool.protocol_fee_a = new_protocol_fee;
    } else {
        pool.reserve_b = new_reserve_in;
        pool.reserve_a = new_reserve_out;
        pool.protocol_fee_b = new_protocol_fee;
    }
    pool.last_update_ts = now_ts;
    if remaining_accounts >= 10 {
        match call_allow_from_remaining(
            copro,
            remaining_accounts,
            pool.reserve_a,
            pool.authority,
            8,
        ) {
            Ok(()) => {},
            Err(e) => {
                return Err(e);
            },
        }
        proof {
            let vs = copro.viewers_of(pool.reserve_a);
            assert(vs[vs.len() - 1] == pool.authority);
        }
    }
    if remaining_accounts >= 12 {
        match call_allow_from_remaining(
            copro,
            remaining_accounts,
            pool.reserve_b,
            pool.authority,
            10,
        ) {
            Ok(()) => {},
            Err(e) => {
                return Err(e);
            },
        }
        proof {
            let vs = copro.viewers_of(pool.reserve_b);
            assert(vs[vs.len() - 1] == pool.authority);
        }
    }
    if remaining_accounts >= 14 {
        match call_allow_from_remaining(
            copro,
            remaining_accounts,
            pool.protocol_fee_a,
            pool.authority,
            12,
        ) {
            Ok(()) => {},
            Err(e) => {
                return Err(e);
            },
        }
        proof {
            let vs = copro.viewers_of(pool.protocol_fee_a);
            assert(vs[vs.len() - 1] == pool.authority);
        }
    }
    if remaining_accounts >= 16 {
        match call_allow_from_remaining(
            copro,
            remaining_accounts,
            pool.protocol_fee_b,
            pool.authority,
            14,
        ) {
            Ok(()) => {},
            Err(e) => {
                return Err(e);
            },
        }
        proof {
            let vs = copro.viewers_of(pool.protocol_fee_b);
            assert(vs[vs.len() - 1] == pool.authority);
        }
    }
    Ok(())
}

/// No committed swap shrinks the constant product: within the wrapping
/// 128-bit representation, the product of the reserves after the two
/// oblivious clamps is at least the product before.
pub proof fn lemma_swap_preserves_product(
    reserve_in: u128,
    reserve_out: u128,
    amount_in: u128,
    amount_out: u128,
    fee_amount: u128,
)
    ensures
        ({
            let committed = swap_amounts(reserve_in, reserve_out, amount_in, amount_out, fee_amount);
            let new_in = reserve_in.wrapping_add(committed.0);
            let new_out = reserve_out.wrapping_sub(committed.1);
            new_in.wrapping_mul(new_out) >= reserve_in.wrapping_mul(reserve_out)
        }),
{
}

/// A withdrawal requesting more than the balance held moves nothing: the
/// clamp leaves the balance exactly as it was.
pub proof fn lemma_overdraw_leaves_balance(balance: u128, requested: u128)
    requires
        requested > balance,
    ensures
        moved_amount(balance, requested) == 0,
        balance - moved_amount(balance, requested) == balance,
{
}

/// Pauses or resumes the pool. Authority only.
pub fn set_pause(pool: &mut Pool, authority: Pubkey, is_paused: bool, now_ts: i64) -> (r: Result<
    (),
    InstructionError,
>)
    ensures
        r is Ok <==> authority == old(pool).authority,
        r is Err ==> r == Err::<(), InstructionError>(InstructionError::Amm(ErrorCode::Unauthorized))
            && *final(pool) == *old(pool),
        r is Ok ==> *final(pool) == (Pool { is_paused, last_update_ts: now_ts, ..*old(pool) }),
{
    if !(pool.authority == authority) {
        return Err(InstructionError::Amm(ErrorCode::Unauthorized));
    }
    pool.is_paused = is_paused;
    pool.last_update_ts = now_ts;
    Ok(())
}

/// Sets the fee rate. A rate above `MAX_FEE_BPS` is rejected before the
/// authority is even considered; otherwise authority only.
pub fn set_fee(pool: &mut Pool, authority: Pubkey, fee_bps: u16, now_ts: i64) -> (r: Result<
    (),
    InstructionError,
>)
    ensures
        r is Ok <==> fee_bps <= MAX_FEE_BPS && authority == old(pool).authority,
        fee_bps > MAX_FEE_BPS ==> r == Err::<(), InstructionError>(
            InstructionError::Amm(ErrorCode::InvalidFee),
        ),
        fee_bps <= MAX_FEE_BPS && authority != old(pool).authority ==> r == Err::<
            (),
            InstructionError,
        >(InstructionError::Amm(ErrorCode::Unauthorized)),
        r is Err ==> *final(pool) == *old(pool),
        r is Ok ==> *final(pool) == (Pool { fee_bps, last_update_ts: now_ts, ..*old(pool) }),
{
    if fee_bps > MAX_FEE_BPS {
        return Err(InstructionError::Amm(ErrorCode::InvalidFee));
    }
    if !(pool.authority == authority) {
        return Err(InstructionError::Amm(ErrorCode::Unauthorized));
    }
    pool.fee_bps = fee_bps;
    pool.last_update_ts = now_ts;
    Ok(())
}

/// Hands the pool to a new authority. Authority only.
pub fn set_authority(pool: &mut Pool, authority: Pubkey, new_authority: Pubkey, now_ts: i64) -> (r:
    Result<(), InstructionError>)
    ensures
        r is Ok <==> authority == old(pool).authority,
        r is Err ==> r == Err::<(), InstructionError>(InstructionError::Amm(ErrorCode::Unauthorized))
            && *final(pool) == *old(pool),
        r is Ok ==> *final(pool) == (Pool {
            authority: new_authority,
            last_update_ts: now_ts,
            ..*old(pool)
        }),
{
    if !(pool.authority == authority) {
        return Err(InstructionError::Amm(ErrorCode::Unauthorized));
    }
    pool.authority = new_authority;
    pool.last_update_ts = now_ts;
    Ok(())
}

} // verus!
