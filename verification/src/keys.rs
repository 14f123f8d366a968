//! Account addresses. The base layer identifies every account, program and
//! signer by a 32-byte public key; the engine only ever compares keys and
//! feeds their bytes into deterministic address derivation. The key is held
//! as four little-endian 64-bit words.

use vstd::prelude::*;

verus! {

/// A 32-byte account address, held as four little-endian 64-bit words.
#[derive(Clone, Copy, PartialEq, Eq, Structural, Debug)]
pub struct Pubkey {
    pub w0: u64,
    pub w1: u64,
    pub w2: u64,
    pub w3: u64,
}

impl Pubkey {
    /// The 32 bytes of the address: the four words in order, each
    /// little-endian.
    pub open spec fn view(self) -> Seq<u8> {
        vstd::bytes::spec_u64_to_le_bytes(self.w0) + vstd::bytes::spec_u64_to_le_bytes(self.w1)
            + vstd::bytes::spec_u64_to_le_bytes(self.w2) + vstd::bytes::spec_u64_to_le_bytes(
            self.w3,
        )
    }

    /// The address as a byte vector, for use as a derivation seed.
    pub fn to_bytes(&self) -> (r: Vec<u8>)
        ensures
            r@ == self.view(),
            r@.len() == 32,
    {
        let mut out = vstd::bytes::u64_to_le_bytes(self.w0);
        let mut p1 = vstd::bytes::u64_to_le_bytes(self.w1);
        let mut p2 = vstd::bytes::u64_to_le_bytes(self.w2);
        let mut p3 = vstd::bytes::u64_to_le_bytes(self.w3);
        out.append(&mut p1);
        out.append(&mut p2);
        out.append(&mut p3);
        out
    }

    /// Rebuilds an address from its 32 bytes.
    pub fn from_bytes(bytes: &[u8]) -> (r: Pubkey)
        requires
            bytes@.len() == 32,
        ensures
            r@ == bytes@,
    {
        let w0 = vstd::bytes::u64_from_le_bytes(vstd::slice::slice_subrange(bytes, 0, 8));
        let w1 = vstd::bytes::u64_from_le_bytes(vstd::slice::slice_subrange(bytes, 8, 16));
        let w2 = vstd::bytes::u64_from_le_bytes(vstd::slice::slice_subrange(bytes, 16, 24));
        let w3 = vstd::bytes::u64_from_le_bytes(vstd::slice::slice_subrange(bytes, 24, 32));
        let r = Pubkey { w0, w1, w2, w3 };
        proof {
            vstd::bytes::lemma_auto_spec_u64_to_from_le_bytes();
            assert(r@ =~= bytes@);
        }
        r
    }
}

/// Two addresses are equal exactly when their 32 bytes are equal.
pub proof fn lemma_key_bytes_injective(a: Pubkey, b: Pubkey)
    ensures
        (a@ == b@) <==> a == b,
{
    vstd::bytes::lemma_auto_spec_u64_to_from_le_bytes();
    if a@ == b@ {
        assert(a@.subrange(0, 8) =~= vstd::bytes::spec_u64_to_le_bytes(a.w0));
        assert(a@.subrange(8, 16) =~= vstd::bytes::spec_u64_to_le_bytes(a.w1));
        assert(a@.subrange(16, 24) =~= vstd::bytes::spec_u64_to_le_bytes(a.w2));
        assert(a@.subrange(24, 32) =~= vstd::bytes::spec_u64_to_le_bytes(a.w3));
        assert(b@.subrange(0, 8) =~= vstd::bytes::spec_u64_to_le_bytes(b.w0));
        assert(b@.subrange(8, 16) =~= vstd::bytes::spec_u64_to_le_bytes(b.w1));
        assert(b@.subrange(16, 24) =~= vstd::bytes::spec_u64_to_le_bytes(b.w2));
        assert(b@.subrange(24, 32) =~= vstd::bytes::spec_u64_to_le_bytes(b.w3));
        assert(vstd::bytes::spec_u64_from_le_bytes(vstd::bytes::spec_u64_to_le_bytes(a.w0))
            == a.w0);
        assert(vstd::bytes::spec_u64_from_le_bytes(vstd::bytes::spec_u64_to_le_bytes(a.w1))
            == a.w1);
        assert(vstd::bytes::spec_u64_from_le_bytes(vstd::bytes::spec_u64_to_le_bytes(a.w2))
            == a.w2);
        assert(vstd::bytes::spec_u64_from_le_bytes(vstd::bytes::spec_u64_to_le_bytes(a.w3))
            == a.w3);
    }
}

/// The id of the pool program itself; pool addresses and permission records
/// are derived under it.
pub open spec fn spec_swap_program_id() -> Pubkey {
    Pubkey {
        w0: 0x622a76def20b314fu64,
        w1: 0x9a6001dd93ffa958u64,
        w2: 0xfc7ed25962669c29u64,
        w3: 0x8a566777e74df51bu64,
    }
}

pub fn swap_program_id() -> (r: Pubkey)
    ensures
        r == spec_swap_program_id(),
{
    Pubkey {
        w0: 0x622a76def20b314fu64,
        w1: 0x9a6001dd93ffa958u64,
        w2: 0xfc7ed25962669c29u64,
        w3: 0x8a566777e74df51bu64,
    }
}

/// The id of the confidential token ledger program; associated token
/// accounts are derived under it.
pub open spec fn spec_token_program_id() -> Pubkey {
    Pubkey {
        w0: 0xdc2459ef00e80cf9u64,
        w1: 0x6c0e5b315f0e6b43u64,
        w2: 0xbd9e5cda14a63efdu64,
        w3: 0x2bf8f28ec2dcbf44u64,
    }
}

pub fn token_program_id() -> (r: Pubkey)
    ensures
        r == spec_token_program_id(),
{
    Pubkey {
        w0: 0xdc2459ef00e80cf9u64,
        w1: 0x6c0e5b315f0e6b43u64,
        w2: 0xbd9e5cda14a63efdu64,
        w3: 0x2bf8f28ec2dcbf44u64,
    }
}

/// The derived address and bump that the base layer assigns to a seed list
/// under a program id; `None` in the statistically improbable event that no
/// bump yields a valid address.
pub uninterp spec fn pda_of(seeds: Seq<Seq<u8>>, program_id: Seq<u8>) -> Option<(Seq<u8>, u8)>;

/// Relies on anchor_lang's `Pubkey::try_find_program_address`: the derived
/// address and bump are a deterministic function of the seeds and the
/// program id alone, and the returned address is 32 bytes.
#[verifier::external_body]
pub(crate) fn find_pda(seeds: &Vec<Vec<u8>>, program_id: &Pubkey) -> (r: Option<(Pubkey, u8)>)
    ensures
        match r {
            Some((key, bump)) => pda_of(seeds@.map_values(|s: Vec<u8>| s@), program_id@)
                == Some((key@, bump)),
            None => pda_of(seeds@.map_values(|s: Vec<u8>| s@), program_id@) is None,
        },
{
    let refs: Vec<&[u8]> = seeds.iter().map(|s| s.as_slice()).collect();
    let mut pid_bytes = [0u8; 32];
    pid_bytes[0..8].copy_from_slice(&program_id.w0.to_le_bytes());
    pid_bytes[8..16].copy_from_slice(&program_id.w1.to_le_bytes());
    pid_bytes[16..24].copy_from_slice(&program_id.w2.to_le_bytes());
    pid_bytes[24..32].copy_from_slice(&program_id.w3.to_le_bytes());
    let pid = anchor_lang::prelude::Pubkey::new_from_array(pid_bytes);
    anchor_lang::prelude::Pubkey::try_find_program_address(&refs, &pid)
        .map(|(key, bump)| (Pubkey::from_bytes(&key.to_bytes()), bump))
}

} // verus!
