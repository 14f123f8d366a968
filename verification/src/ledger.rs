//! The confidential token ledger, the collaborator that owns per-account
//! encrypted balances. The pool engine consumes only its transfer
//! operation; this module models the account records and that operation.
//!
//! A transfer can check nothing about the encrypted amount in plaintext, so
//! the ledger applies the same oblivious clamp the pool uses: when the
//! source balance is below the requested amount the transfer moves an
//! encrypted zero instead, preventing overdraft without revealing that it
//! happened. Plaintext preconditions — account state, mint binding, the
//! authorizing owner — are checked up front and fail the instruction with
//! the ledger's own errors before any state changes.

use vstd::prelude::*;

use crate::cipher::Coprocessor;
use crate::cipher::Euint128;
use crate::cipher::EUINT128_INPUT_TYPE;
use crate::cipher::extends;
use crate::errors::CipherError;
use crate::errors::CustomError;
use crate::errors::InstructionError;
use crate::keys::Pubkey;

verus! {

/// The lifecycle state of a token account.
#[derive(Clone, Copy, PartialEq, Eq, Structural, Debug)]
pub enum AccountState {
    Uninitialized,
    Initialized,
    Frozen,
}

/// A fixed-layout optional value, as persisted in ledger account records.
#[derive(Clone, Copy, PartialEq, Eq, Debug)]
pub enum COption<T> {
    CNone,
    CSome(T),
}

impl<T> COption<T> {
    pub fn is_some(&self) -> (r: bool)
        ensures
            r == (self matches COption::CSome(_)),
    {
        match self {
            COption::CSome(_) => true,
            COption::CNone => false,
        }
    }

    pub fn is_none(&self) -> (r: bool)
        ensures
            r == (self matches COption::CNone),
    {
        match self {
            COption::CSome(_) => false,
            COption::CNone => true,
        }
    }
}

impl<T> Default for COption<T> {
    fn default() -> (r: Self)
        ensures
            r matches COption::CNone,
    {
        COption::CNone
    }
}

/// A confidential mint record: the asset type's issuing and freezing
/// authorities and its encrypted total supply.
pub struct IncoMint {
    pub mint_authority: COption<Pubkey>,
    pub supply: Euint128,
    pub decimals: u8,
    pub is_initialized: bool,
    pub freeze_authority: COption<Pubkey>,
}

impl IncoMint {
    /// The persisted size of the record's field data, in bytes.
    pub const LEN: usize = 36 + 32 + 1 + 1 + 36;
}

/// A confidential token account: an externally managed resource the pool
/// engine may instruct the ledger to transfer from and to.
pub struct IncoAccount {
    pub mint: Pubkey,
    pub owner: Pubkey,
    pub amount: Euint128,
    pub delegate: COption<Pubkey>,
    pub state: AccountState,
    pub is_native: COption<u64>,
    pub delegated_amount: Euint128,
    pub close_authority: COption<Pubkey>,
}

impl IncoAccount {
    /// The persisted size of the record's field data, in bytes.
    pub const LEN: usize = 32 + 32 + 32 + 36 + 1 + 12 + 32 + 36;

    /// The account's encrypted-balance handles are live on the coprocessor.
    pub open spec fn wf(self, c: Coprocessor) -> bool {
        c.valid_uint(self.amount) && c.valid_uint(self.delegated_amount)
    }
}

/// The same account with its balance handle replaced; every other field is
/// untouched.
pub open spec fn with_amount(a: IncoAccount, amount: Euint128) -> IncoAccount {
    IncoAccount { amount, ..a }
}

/// The plaintext preconditions of a ledger transfer, in the order the
/// ledger checks them; `None` when they all pass.
pub open spec fn transfer_checks(
    source: IncoAccount,
    destination: IncoAccount,
    authority: Pubkey,
) -> Option<CustomError> {
    if source.state is Uninitialized || destination.state is Uninitialized {
        Some(CustomError::UninitializedState)
    } else if source.state is Frozen || destination.state is Frozen {
        Some(CustomError::AccountFrozen)
    } else if source.mint != destination.mint {
        Some(CustomError::MintMismatch)
    } else if authority != source.owner {
        Some(CustomError::OwnerMismatch)
    } else {
        None
    }
}

/// Evaluates the plaintext preconditions of a transfer without performing
/// it, so an instruction can fail before any of its state changes.
pub fn check_transfer(
    source: &IncoAccount,
    destination: &IncoAccount,
    authority: Pubkey,
) -> (r: Option<CustomError>)
    ensures
        r == transfer_checks(*source, *destination, authority),
{
    if matches!(source.state, AccountState::Uninitialized) || matches!(
        destination.state,
        AccountState::Uninitialized,
    ) {
        Some(CustomError::UninitializedState)
    } else if matches!(source.state, AccountState::Frozen) || matches!(
        destination.state,
        AccountState::Frozen,
    ) {
        Some(CustomError::AccountFrozen)
    } else if source.mint != destination.mint {
        Some(CustomError::MintMismatch)
    } else if authority != source.owner {
        Some(CustomError::OwnerMismatch)
    } else {
        None
    }
}

/// The amount a clamped withdrawal or transfer actually moves: the full
/// request when the balance covers it, otherwise nothing.
pub open spec fn moved_amount(balance: u128, requested: u128) -> u128 {
    if balance >= requested {
        requested
    } else {
        0
    }
}

/// Moves a confidential balance between two accounts of the same mint,
/// authorized by the source's owner. The encrypted amount is imported from
/// the caller's ciphertext; if the source balance does not cover it the
/// transfer obliviously moves zero instead. On any error no account and no
/// coprocessor state changes.
pub fn transfer(
    copro: &mut Coprocessor,
    source: &mut IncoAccount,
    destination: &mut IncoAccount,
    authority: Pubkey,
    ciphertext: &[u8],
    input_type: u8,
) -> (r: Result<(), InstructionError>)
    requires
        old(copro).wf(),
        old(source).wf(*old(copro)),
        old(destination).wf(*old(copro)),
    ensures
        final(copro).wf(),
        extends(*old(copro), *final(copro)),
        final(source).wf(*final(copro)),
        final(destination).wf(*final(copro)),
        ({
            let checks = transfer_checks(*old(source), *old(destination), authority);
            let ct_ok = ciphertext@.len() == 16 && input_type == EUINT128_INPUT_TYPE;
            let v = vstd::bytes::spec_u128_from_le_bytes(ciphertext@);
            let s0 = old(copro).value_of(old(source).amount);
            let d0 = old(copro).value_of(old(destination).amount);
            let m = moved_amount(s0, v);
            match r {
                Ok(()) => {
                    &&& checks is None
                    &&& ct_ok
                    &&& *final(source) == with_amount(*old(source), final(source).amount)
                    &&& *final(destination) == with_amount(*old(destination), final(destination).amount)
                    &&& final(copro).value_of(final(source).amount) == s0 - m
                    &&& final(copro).value_of(final(destination).amount) == d0.wrapping_add(m)
                },
                Err(e) => {
                    &&& match checks {
                        Some(c) => e == InstructionError::Cpi(c),
                        None => e == InstructionError::Cipher(CipherError::InvalidCiphertext)
                            && !ct_ok,
                    }
                    &&& *final(source) == *old(source)
                    &&& *final(destination) == *old(destination)
                    &&& *final(copro) == *old(copro)
                },
            }
        }),
{
    if let Some(e) = check_transfer(source, destination, authority) {
        return Err(InstructionError::Cpi(e));
    }
    if ciphertext.len() != 16 || input_type != EUINT128_INPUT_TYPE {
        return Err(InstructionError::Cipher(CipherError::InvalidCiphertext));
    }
    let amount = match copro.new_euint128(ciphertext, input_type) {
        Ok(h) => h,
        Err(_) => {
            return Err(InstructionError::Cipher(CipherError::InvalidCiphertext));
        },
    };
    let has_sufficient = copro.e_ge(source.amount, amount);
    let zero = copro.as_euint128(0);
    let moved = copro.e_select(has_sufficient, amount, zero);
    let new_source_amount = copro.e_sub(source.amount, moved);
    let new_destination_amount = copro.e_add(destination.amount, moved);
    source.amount = new_source_amount;
    destination.amount = new_destination_amount;
    Ok(())
}

} // verus!
