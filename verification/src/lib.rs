//! A confidential constant-product market maker.
//!
//! Every pool balance is an opaque handle to an encrypted 128-bit value held
//! by an encrypted-arithmetic coprocessor; the pool engine never observes the
//! plaintext amounts it manages. This crate verifies the engine against a
//! reference model of that coprocessor: handles index into the model's value
//! table, and every operation's contract states the exact plaintext effect,
//! so the oblivious clamp-to-zero swap algorithm, the liquidity and fee
//! instructions, and the permission and delegation lifecycle are proved
//! correct for every input.

pub mod access;
pub mod cipher;
pub mod errors;
pub mod keys;
pub mod ledger;
pub mod pool;
