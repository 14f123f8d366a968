//! Error taxonomy of the pool engine and of the collaborator programs it
//! calls. Authorization and state errors are surfaced immediately with no
//! partial effect; a rejected request from a collaborator aborts the whole
//! instruction.

use vstd::prelude::*;

verus! {

/// Errors raised by the pool program's own checks.
#[derive(Clone, Copy, PartialEq, Eq, Structural, Debug)]
pub enum ErrorCode {
    /// The caller is not the recorded pool authority.
    Unauthorized,
    /// The pool is paused.
    PoolPaused,
    /// A fee rate above 10000 basis points.
    InvalidFee,
    /// Too few access-control accounts were supplied for a view grant.
    InvalidAccessAccounts,
    /// The supplied account is not the address derived for the resource.
    InvalidPermissionAccount,
}

/// Errors raised by the encrypted-arithmetic coprocessor.
#[derive(Clone, Copy, PartialEq, Eq, Structural, Debug)]
pub enum CipherError {
    /// Caller-supplied ciphertext material is malformed for its declared
    /// input type.
    InvalidCiphertext,
}

/// Errors raised by the confidential token ledger and the other collaborator
/// programs (permission registry, delegation program).
#[derive(Clone, Copy, PartialEq, Eq, Structural, Debug)]
pub enum CustomError {
    NotRentExempt,
    InsufficientFunds,
    InvalidMint,
    MintMismatch,
    OwnerMismatch,
    FixedSupply,
    AlreadyInUse,
    InvalidNumberOfProvidedSigners,
    InvalidNumberOfRequiredSigners,
    UninitializedState,
    NativeNotSupported,
    NonNativeHasBalance,
    InvalidInstruction,
    InvalidState,
    Overflow,
    AuthorityTypeNotSupported,
    MintCannotFreeze,
    AccountFrozen,
    MintDecimalsMismatch,
    NonNativeNotSupported,
}

/// The unified failure type of an instruction: the engine's own error codes,
/// a coprocessor rejection, or an error surfaced by a collaborator program.
#[derive(Clone, Copy, PartialEq, Eq, Structural, Debug)]
pub enum InstructionError {
    /// One of the pool program's own checks failed.
    Amm(ErrorCode),
    /// The coprocessor rejected a request.
    Cipher(CipherError),
    /// A collaborator program rejected a request.
    Cpi(CustomError),
}

} // verus!
