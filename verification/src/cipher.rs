//! The encrypted-arithmetic coprocessor and the client that drives it.
//!
//! The coprocessor owns every encrypted value; the engine only ever holds
//! opaque handles to them. This module is a reference model of that service:
//! a `Coprocessor` value keeps the plaintext denotation of each handle in a
//! table, a handle is an index into that table, and each operation's
//! contract states the exact plaintext effect. All arithmetic is fixed-width
//! 128-bit unsigned, wrapping on overflow. Handles are typed — an encrypted
//! integer and an encrypted boolean can never be confused — so the
//! type-mismatch rejection of the external service cannot arise here by
//! construction.

use vstd::prelude::*;

use crate::errors::CipherError;
use crate::keys::Pubkey;

verus! {

/// The input-type tag under which 16 little-endian bytes of ciphertext
/// material import as an encrypted 128-bit integer.
pub const EUINT128_INPUT_TYPE: u8 = 0;

/// A handle to an encrypted 128-bit unsigned integer. Only coprocessor
/// operations produce handles; copying one shares the underlying ciphertext.
#[derive(Clone, Copy, PartialEq, Eq, Structural, Debug)]
pub struct Euint128 {
    handle: usize,
}

impl Euint128 {
    pub closed spec fn id(self) -> int {
        self.handle as int
    }
}

/// A handle to an encrypted boolean, as produced by an encrypted comparison.
/// The program never learns the truth value behind it.
#[derive(Clone, Copy, PartialEq, Eq, Structural, Debug)]
pub struct Ebool {
    handle: usize,
}

impl Ebool {
    pub closed spec fn id(self) -> int {
        self.handle as int
    }
}

/// The reference model of the encrypted-arithmetic coprocessor: the
/// plaintext behind every integer handle, the truth value behind every
/// boolean handle, and the view-access list of every integer handle.
pub struct Coprocessor {
    uints: Vec<u128>,
    acls: Vec<Vec<Pubkey>>,
    bools: Vec<bool>,
}

impl Coprocessor {
    /// The plaintext denotations of all integer handles issued so far.
    pub closed spec fn uints(self) -> Seq<u128> {
        self.uints@
    }

    /// The truth values of all boolean handles issued so far.
    pub closed spec fn bools(self) -> Seq<bool> {
        self.bools@
    }

    /// The view-access list of each integer handle: the keys whose holders
    /// may request plaintext disclosure.
    pub closed spec fn acls(self) -> Seq<Seq<Pubkey>> {
        self.acls@.map_values(|a: Vec<Pubkey>| a@)
    }

    /// Every integer handle has an access list.
    pub open spec fn wf(self) -> bool {
        self.acls().len() == self.uints().len()
    }

    pub open spec fn valid_uint(self, h: Euint128) -> bool {
        0 <= h.id() < self.uints().len()
    }

    pub open spec fn valid_bool(self, h: Ebool) -> bool {
        0 <= h.id() < self.bools().len()
    }

    /// The plaintext behind an integer handle.
    pub open spec fn value_of(self, h: Euint128) -> u128 {
        self.uints()[h.id()]
    }

    /// The truth value behind a boolean handle.
    pub open spec fn truth_of(self, h: Ebool) -> bool {
        self.bools()[h.id()]
    }

    /// The keys granted view access on an integer handle.
    pub open spec fn viewers_of(self, h: Euint128) -> Seq<Pubkey> {
        self.acls()[h.id()]
    }

    pub fn new() -> (r: Coprocessor)
        ensures
            r.wf(),
            r.uints() == Seq::<u128>::empty(),
            r.bools() == Seq::<bool>::empty(),
            r.acls() == Seq::<Seq<Pubkey>>::empty(),
    {
        let r = Coprocessor { uints: Vec::new(), acls: Vec::new(), bools: Vec::new() };
        proof {
            assert(r.acls() =~= Seq::<Seq<Pubkey>>::empty());
        }
        r
    }

    /// Issues a fresh integer handle with the given plaintext and an empty
    /// access list.
    fn push_uint(&mut self, value: u128) -> (h: Euint128)
        requires
            old(self).wf(),
        ensures
            final(self).wf(),
            final(self).uints() == old(self).uints().push(value),
            final(self).acls() == old(self).acls().push(Seq::<Pubkey>::empty()),
            final(self).bools() == old(self).bools(),
            h.id() == old(self).uints().len(),
            final(self).valid_uint(h),
            final(self).value_of(h) == value,
    {
        let h = Euint128 { handle: self.uints.len() };
        self.uints.push(value);
        self.acls.push(Vec::new());
        proof {
            assert(self.acls() =~= old(self).acls().push(Seq::<Pubkey>::empty()));
        }
        h
    }

    /// Issues a fresh boolean handle with the given truth value.
    fn push_bool(&mut self, value: bool) -> (h: Ebool)
        requires
            old(self).wf(),
        ensures
            final(self).wf(),
            final(self).uints() == old(self).uints(),
            final(self).acls() == old(self).acls(),
            final(self).bools() == old(self).bools().push(value),
            h.id() == old(self).bools().len(),
            final(self).valid_bool(h),
            final(self).truth_of(h) == value,
    {
        let h = Ebool { handle: self.bools.len() };
        self.bools.push(value);
        h
    }

    /// Encrypts a known plaintext constant, as used for "zero".
    pub fn as_euint128(&mut self, value: u128) -> (h: Euint128)
        requires
            old(self).wf(),
        ensures
            final(self).wf(),
            final(self).uints() == old(self).uints().push(value),
            final(self).acls() == old(self).acls().push(Seq::<Pubkey>::empty()),
            final(self).bools() == old(self).bools(),
            h.id() == old(self).uints().len(),
            final(self).valid_uint(h),
            final(self).value_of(h) == value,
    {
        self.push_uint(value)
    }

    /// Registers caller-supplied ciphertext material as a fresh handle.
    /// The material must be exactly 16 little-endian bytes declared under
    /// the 128-bit input type; anything else is rejected as malformed, with
    /// no effect on the coprocessor's state.
    pub fn new_euint128(&mut self, ciphertext: &[u8], input_type: u8) -> (r: Result<
        Euint128,
        CipherError,
    >)
        requires
            old(self).wf(),
        ensures
            final(self).wf(),
            r is Ok <==> ciphertext@.len() == 16 && input_type == EUINT128_INPUT_TYPE,
            r is Err ==> r == Err::<Euint128, CipherError>(CipherError::InvalidCiphertext)
                && *final(self) == *old(self),
            r matches Ok(h) ==> {
                &&& final(self).uints() == old(self).uints().push(
                    vstd::bytes::spec_u128_from_le_bytes(ciphertext@),
                )
                &&& final(self).acls() == old(self).acls().push(Seq::<Pubkey>::empty())
                &&& final(self).bools() == old(self).bools()
                &&& h.id() == old(self).uints().len()
                &&& final(self).valid_uint(h)
                &&& final(self).value_of(h) == vstd::bytes::spec_u128_from_le_bytes(ciphertext@)
            },
    {
        if ciphertext.len() != 16 || input_type != EUINT128_INPUT_TYPE {
            return Err(CipherError::InvalidCiphertext);
        }
        let value = vstd::bytes::u128_from_le_bytes(ciphertext);
        Ok(self.push_uint(value))
    }

    /// Homomorphic addition, wrapping at 2^128.
    pub fn e_add(&mut self, a: Euint128, b: Euint128) -> (h: Euint128)
        requires
            old(self).wf(),
            old(self).valid_uint(a),
            old(self).valid_uint(b),
        ensures
            final(self).wf(),
            final(self).uints() == old(self).uints().push(
                old(self).value_of(a).wrapping_add(old(self).value_of(b)),
            ),
            final(self).acls() == old(self).acls().push(Seq::<Pubkey>::empty()),
            final(self).bools() == old(self).bools(),
            h.id() == old(self).uints().len(),
            final(self).valid_uint(h),
            final(self).value_of(h) == old(self).value_of(a).wrapping_add(old(self).value_of(b)),
    {
        let value = self.uints[a.handle].wrapping_add(self.uints[b.handle]);
        self.push_uint(value)
    }

    /// Homomorphic subtraction, wrapping at zero.
    pub fn e_sub(&mut self, a: Euint128, b: Euint128) -> (h: Euint128)
        requires
            old(self).wf(),
            old(self).valid_uint(a),
            old(self).valid_uint(b),
        ensures
            final(self).wf(),
            final(self).uints() == old(self).uints().push(
                old(self).value_of(a).wrapping_sub(old(self).value_of(b)),
            ),
            final(self).acls() == old(self).acls().push(Seq::<Pubkey>::empty()),
            final(self).bools() == old(self).bools(),
            h.id() == old(self).uints().len(),
            final(self).valid_uint(h),
            final(self).value_of(h) == old(self).value_of(a).wrapping_sub(old(self).value_of(b)),
    {
        let value = self.uints[a.handle].wrapping_sub(self.uints[b.handle]);
        self.push_uint(value)
    }

    /// Homomorphic multiplication, wrapping at 2^128.
    pub fn e_mul(&mut self, a: Euint128, b: Euint128) -> (h: Euint128)
        requires
            old(self).wf(),
            old(self).valid_uint(a),
            old(self).valid_uint(b),
        ensures
            final(self).wf(),
            final(self).uints() == old(self).uints().push(
                old(self).value_of(a).wrapping_mul(old(self).value_of(b)),
            ),
            final(self).acls() == old(self).acls().push(Seq::<Pubkey>::empty()),
            final(self).bools() == old(self).bools(),
            h.id() == old(self).uints().len(),
            final(self).valid_uint(h),
            final(self).value_of(h) == old(self).value_of(a).wrapping_mul(old(self).value_of(b)),
    {
        let value = self.uints[a.handle].wrapping_mul(self.uints[b.handle]);
        self.push_uint(value)
    }

    /// Encrypted greater-or-equal comparison. The result is an encrypted
    /// boolean; the program never learns it.
    pub fn e_ge(&mut self, a: Euint128, b: Euint128) -> (h: Ebool)
        requires
            old(self).wf(),
            old(self).valid_uint(a),
            old(self).valid_uint(b),
        ensures
            final(self).wf(),
            final(self).uints() == old(self).uints(),
            final(self).acls() == old(self).acls(),
            final(self).bools() == old(self).bools().push(
                old(self).value_of(a) >= old(self).value_of(b),
            ),
            h.id() == old(self).bools().len(),
            final(self).valid_bool(h),
            final(self).truth_of(h) == (old(self).value_of(a) >= old(self).value_of(b)),
    {
        let value = self.uints[a.handle] >= self.uints[b.handle];
        self.push_bool(value)
    }

    /// Oblivious conditional: both branches are always materialized, so the
    /// call pattern is independent of the encrypted condition.
    pub fn e_select(&mut self, cond: Ebool, if_true: Euint128, if_false: Euint128) -> (h: Euint128)
        requires
            old(self).wf(),
            old(self).valid_bool(cond),
            old(self).valid_uint(if_true),
            old(self).valid_uint(if_false),
        ensures
            final(self).wf(),
            final(self).uints() == old(self).uints().push(
                if old(self).truth_of(cond) {
                    old(self).value_of(if_true)
                } else {
                    old(self).value_of(if_false)
                },
            ),
            final(self).acls() == old(self).acls().push(Seq::<Pubkey>::empty()),
            final(self).bools() == old(self).bools(),
            h.id() == old(self).uints().len(),
            final(self).valid_uint(h),
            final(self).value_of(h) == if old(self).truth_of(cond) {
                old(self).value_of(if_true)
            } else {
                old(self).value_of(if_false)
            },
    {
        let value = if self.bools[cond.handle] {
            self.uints[if_true.handle]
        } else {
            self.uints[if_false.handle]
        };
        self.push_uint(value)
    }

    /// Appends a key to a handle's view-access list, so its holder may later
    /// request plaintext disclosure.
    pub fn allow(&mut self, h: Euint128, allowed: Pubkey)
        requires
            old(self).wf(),
            old(self).valid_uint(h),
        ensures
            final(self).wf(),
            final(self).uints() == old(self).uints(),
            final(self).bools() == old(self).bools(),
            final(self).acls() == old(self).acls().update(
                h.id(),
                old(self).viewers_of(h).push(allowed),
            ),
            final(self).viewers_of(h) == old(self).viewers_of(h).push(allowed),
    {
        self.acls[h.handle].push(allowed);
        proof {
            assert(self.acls() =~= old(self).acls().update(
                h.id(),
                old(self).viewers_of(h).push(allowed),
            ));
        }
    }

    /// Whether a key has been granted view access on a handle.
    pub fn is_viewer(&self, h: Euint128, key: Pubkey) -> (r: bool)
        requires
            self.wf(),
            self.valid_uint(h),
        ensures
            r == self.viewers_of(h).contains(key),
    {
        let list = &self.acls[h.handle];
        let mut i: usize = 0;
        while i < list.len()
            invariant
                self.wf(),
                self.valid_uint(h),
                list == &self.acls@[h.id()],
                i <= list@.len(),
                forall|j: int| 0 <= j < i ==> list@[j] != key,
            decreases list@.len() - i,
        {
            if list[i] == key {
                assert(self.viewers_of(h)[i as int] == key);
                return true;
            }
            i = i + 1;
        }
        proof {
            assert(forall|j: int| 0 <= j < self.viewers_of(h).len()
                ==> self.viewers_of(h)[j] == list@[j]);
        }
        false
    }

    /// The disclosure a test harness holding a viewing key would receive:
    /// the plaintext behind a handle.
    pub fn decrypt(&self, h: Euint128) -> (v: u128)
        requires
            self.wf(),
            self.valid_uint(h),
        ensures
            v == self.value_of(h),
    {
        self.uints[h.handle]
    }
}

/// One coprocessor state extends another: every handle issued in the old
/// state is still valid, denotes the same plaintext, and has kept every key
/// on its access list.
pub open spec fn extends(pre: Coprocessor, post: Coprocessor) -> bool {
    &&& pre.uints().len() <= post.uints().len()
    &&& forall|i: int| 0 <= i < pre.uints().len() ==> #[trigger] post.uints()[i] == pre.uints()[i]
    &&& pre.bools().len() <= post.bools().len()
    &&& forall|i: int| 0 <= i < pre.bools().len() ==> #[trigger] post.bools()[i] == pre.bools()[i]
    &&& pre.acls().len() <= post.acls().len()
    &&& forall|i: int| 0 <= i < pre.acls().len()
        ==> pre.acls()[i].is_prefix_of(#[trigger] post.acls()[i])
}

} // verus!
