//! The access-control and delegation lifecycle: deriving the deterministic
//! address of a resource, registering an initial view/action membership
//! list for it with the permission registry, and handing a derived account
//! to an off-base-layer executor for low-latency processing.
//!
//! The permission registry and the delegation program are global external
//! services; this module models each as a keyed record store with exactly
//! the lifecycle the engine relies on: a record either exists or it does
//! not, creating it twice is a deterministic already-in-use failure, and a
//! record is only ever created under the address derived for its resource.

use vstd::prelude::*;

use crate::errors::CustomError;
use crate::errors::ErrorCode;
use crate::errors::InstructionError;
use crate::keys::Pubkey;
use crate::keys::find_pda;
use crate::keys::pda_of;
use crate::keys::spec_swap_program_id;
use crate::keys::spec_token_program_id;
use crate::keys::swap_program_id;
use crate::keys::token_program_id;

verus! {

/// One entry of a membership list: a key and its privilege flags.
#[derive(Clone, Copy, PartialEq, Eq, Structural, Debug)]
pub struct Member {
    pub flags: u8,
    pub pubkey: Pubkey,
}

/// The resource kinds whose derived addresses the engine can produce.
#[derive(Clone, Copy, Debug)]
pub enum AccountType {
    Pool { mint_a: Pubkey, mint_b: Pubkey },
}

/// The seed prefix of every pool address.
pub open spec fn spec_pool_seed() -> Seq<u8> {
    seq![0x70u8, 0x6fu8, 0x6fu8, 0x6cu8]
}

/// The bytes of the seed prefix `"pool"`.
pub fn pool_seed() -> (r: Vec<u8>)
    ensures
        r@ == spec_pool_seed(),
{
    let r = vec![0x70u8, 0x6fu8, 0x6fu8, 0x6cu8];
    proof {
        assert(r@ =~= spec_pool_seed());
    }
    r
}

/// The seed list of a resource: for a pool, the `"pool"` prefix and the two
/// mint addresses.
pub open spec fn spec_account_type_seeds(t: AccountType) -> Seq<Seq<u8>> {
    match t {
        AccountType::Pool { mint_a, mint_b } => seq![spec_pool_seed(), mint_a@, mint_b@],
    }
}

/// Produces the seed list from which a resource's address is derived.
pub fn derive_seeds_from_account_type(account_type: &AccountType) -> (r: Vec<Vec<u8>>)
    ensures
        r@.map_values(|s: Vec<u8>| s@) == spec_account_type_seeds(*account_type),
{
    match account_type {
        AccountType::Pool { mint_a, mint_b } => {
            let mut seeds: Vec<Vec<u8>> = Vec::new();
            seeds.push(pool_seed());
            seeds.push(mint_a.to_bytes());
            seeds.push(mint_b.to_bytes());
            proof {
                assert(seeds@.map_values(|s: Vec<u8>| s@) =~= spec_account_type_seeds(
                    *account_type,
                ));
            }
            seeds
        },
    }
}

/// The seed list of an associated token account: the owning wallet, the
/// token program's own id, and the mint.
pub open spec fn spec_associated_account_seeds(wallet: Pubkey, mint: Pubkey) -> Seq<Seq<u8>> {
    seq![wallet@, spec_token_program_id()@, mint@]
}

/// Produces the seed list of an associated token account.
pub fn associated_account_seeds(wallet: &Pubkey, mint: &Pubkey) -> (r: Vec<Vec<u8>>)
    ensures
        r@.map_values(|s: Vec<u8>| s@) == spec_associated_account_seeds(*wallet, *mint),
{
    let mut seeds: Vec<Vec<u8>> = Vec::new();
    seeds.push(wallet.to_bytes());
    seeds.push(token_program_id().to_bytes());
    seeds.push(mint.to_bytes());
    proof {
        assert(seeds@.map_values(|s: Vec<u8>| s@) =~= spec_associated_account_seeds(
            *wallet,
            *mint,
        ));
    }
    seeds
}

/// The record store an external registry keeps: one value per derived
/// address.
pub struct AccountRegistry<V> {
    entries: Vec<(Pubkey, V)>,
}

/// The map held by a record store: later entries shadow earlier ones,
/// though the engine never creates a key twice.
pub open spec fn map_of_entries<V>(s: Seq<(Pubkey, V)>) -> Map<Pubkey, V>
    decreases s.len(),
{
    if s.len() == 0 {
        Map::empty()
    } else {
        map_of_entries(s.drop_last()).insert(s.last().0, s.last().1)
    }
}

/// A key is in the map exactly when some entry carries it.
pub proof fn lemma_map_of_entries_contains<V>(s: Seq<(Pubkey, V)>, k: Pubkey)
    ensures
        map_of_entries(s).contains_key(k) <==> exists|i: int| 0 <= i < s.len() && s[i].0 == k,
    decreases s.len(),
{
    if s.len() > 0 {
        let dl = s.drop_last();
        lemma_map_of_entries_contains(dl, k);
        if map_of_entries(s).contains_key(k) {
            if k == s.last().0 {
                assert(s[s.len() - 1].0 == k);
            } else {
                let i = choose|i: int| 0 <= i < dl.len() && dl[i].0 == k;
                assert(s[i].0 == k);
            }
        }
        if exists|i: int| 0 <= i < s.len() && s[i].0 == k {
            let i = choose|i: int| 0 <= i < s.len() && s[i].0 == k;
            if i < s.len() - 1 {
                assert(dl[i].0 == k);
            }
        }
    }
}

impl<V> View for AccountRegistry<V> {
    type V = Map<Pubkey, V>;

    closed spec fn view(&self) -> Map<Pubkey, V> {
        map_of_entries(self.entries@)
    }
}

impl<V> AccountRegistry<V> {
    /// An empty registry, as an external service starts.
    pub fn new() -> (r: AccountRegistry<V>)
        ensures
            r@ == Map::<Pubkey, V>::empty(),
    {
        AccountRegistry { entries: Vec::new() }
    }

    /// Whether a record exists for the key.
    pub fn contains(&self, key: Pubkey) -> (r: bool)
        ensures
            r == self@.contains_key(key),
    {
        let mut i: usize = 0;
        while i < self.entries.len()
            invariant
                i <= self.entries@.len(),
                forall|j: int| 0 <= j < i ==> (#[trigger] self.entries@[j]).0 != key,
            decreases self.entries@.len() - i,
        {
            if self.entries[i].0 == key {
                proof {
                    lemma_map_of_entries_contains(self.entries@, key);
                    assert(self.entries@[i as int].0 == key);
                }
                return true;
            }
            i = i + 1;
        }
        proof {
            lemma_map_of_entries_contains(self.entries@, key);
        }
        false
    }

    /// Records a value under a key.
    pub fn insert(&mut self, key: Pubkey, value: V)
        ensures
            final(self)@ == old(self)@.insert(key, value),
    {
        self.entries.push((key, value));
        proof {
            assert(self.entries@.drop_last() =~= old(self).entries@);
        }
    }
}

/// The permission registry: the membership list registered for each
/// permissioned account.
pub type PermissionRegistry = AccountRegistry<Option<Vec<Member>>>;

/// The delegation program's records: the optional pinned validator of each
/// delegated account.
pub type DelegationRegistry = AccountRegistry<Option<Pubkey>>;

/// The outcome of registering a resource with an external registry: an
/// insertion when the resource is new, a deterministic already-in-use
/// failure — and no other state — when it exists.
pub open spec fn register_outcome<V>(m: Map<Pubkey, V>, key: Pubkey, value: V) -> (
    Result<(), InstructionError>,
    Map<Pubkey, V>,
) {
    if m.contains_key(key) {
        (Err(InstructionError::Cpi(CustomError::AlreadyInUse)), m)
    } else {
        (Ok(()), m.insert(key, value))
    }
}

/// Registering the same resource twice can never diverge silently: after a
/// first registration succeeds, a second one for the same resource — with
/// the same membership or any other — deterministically fails as already
/// in use and leaves the registry exactly as the first call left it.
pub proof fn lemma_create_permission_idempotent<V>(
    m: Map<Pubkey, V>,
    key: Pubkey,
    value: V,
    again: V,
)
    requires
        !m.contains_key(key),
    ensures
        ({
            let first = register_outcome(m, key, value);
            let second = register_outcome(first.1, key, again);
            &&& first.0 == Ok::<(), InstructionError>(())
            &&& second.0 == Err::<(), InstructionError>(
                InstructionError::Cpi(CustomError::AlreadyInUse),
            )
            &&& second.1 == first.1
        }),
{
}

/// Checks that `account` is the address derived for `seeds` under
/// `program_id`, then registers `value` for it.
fn register_derived<V>(
    registry: &mut AccountRegistry<V>,
    account: Pubkey,
    seeds: &Vec<Vec<u8>>,
    program_id: &Pubkey,
    value: V,
) -> (r: Result<(), InstructionError>)
    ensures
        ({
            let derived = pda_of(seeds@.map_values(|s: Vec<u8>| s@), program_id@);
            let addr_ok = match derived {
                Some((key, bump)) => key == account@,
                None => false,
            };
            if addr_ok {
                let outcome = register_outcome(old(registry)@, account, value);
                r == outcome.0 && final(registry)@ == outcome.1
            } else {
                r == Err::<(), InstructionError>(
                    InstructionError::Amm(ErrorCode::InvalidPermissionAccount),
                ) && final(registry)@ == old(registry)@
            }
        }),
{
    let derived = find_pda(seeds, program_id);
    let addr_ok = match &derived {
        Some((key, _bump)) => {
            let same = *key == account;
            proof {
                crate::keys::lemma_key_bytes_injective(*key, account);
            }
            same
        },
        None => false,
    };
    if !addr_ok {
        return Err(InstructionError::Amm(ErrorCode::InvalidPermissionAccount));
    }
    if registry.contains(account) {
        return Err(InstructionError::Cpi(CustomError::AlreadyInUse));
    }
    registry.insert(account, value);
    Ok(())
}

/// Registers an initial membership list for a resource of the pool program
/// with the permission registry. The supplied account must be the address
/// derived for the resource's seeds under the pool program; a resource
/// registered once cannot be registered again.
pub fn create_permission(
    registry: &mut PermissionRegistry,
    permissioned_account: Pubkey,
    account_type: &AccountType,
    members: Option<Vec<Member>>,
) -> (r: Result<(), InstructionError>)
    ensures
        ({
            let derived = pda_of(
                spec_account_type_seeds(*account_type),
                spec_swap_program_id()@,
            );
            let addr_ok = match derived {
                Some((key, bump)) => key == permissioned_account@,
                None => false,
            };
            if addr_ok {
                let outcome = register_outcome(old(registry)@, permissioned_account, members);
                r == outcome.0 && final(registry)@ == outcome.1
            } else {
                r == Err::<(), InstructionError>(
                    InstructionError::Amm(ErrorCode::InvalidPermissionAccount),
                ) && final(registry)@ == old(registry)@
            }
        }),
{
    let seeds = derive_seeds_from_account_type(account_type);
    let pid = swap_program_id();
    register_derived(registry, permissioned_account, &seeds, &pid, members)
}

/// Hands a derived account of the pool program to the off-base-layer
/// executor, optionally pinned to a validator. The account must be the
/// address derived for the resource's seeds; delegating it twice is a
/// deterministic already-in-use failure.
pub fn delegate_pda(
    registry: &mut DelegationRegistry,
    pda: Pubkey,
    account_type: &AccountType,
    validator: Option<Pubkey>,
) -> (r: Result<(), InstructionError>)
    ensures
        ({
            let derived = pda_of(
                spec_account_type_seeds(*account_type),
                spec_swap_program_id()@,
            );
            let addr_ok = match derived {
                Some((key, bump)) => key == pda@,
                None => false,
            };
            if addr_ok {
                let outcome = register_outcome(old(registry)@, pda, validator);
                r == outcome.0 && final(registry)@ == outcome.1
            } else {
                r == Err::<(), InstructionError>(
                    InstructionError::Amm(ErrorCode::InvalidPermissionAccount),
                ) && final(registry)@ == old(registry)@
            }
        }),
{
    let seeds = derive_seeds_from_account_type(account_type);
    let pid = swap_program_id();
    register_derived(registry, pda, &seeds, &pid, validator)
}

/// Registers an initial membership list for an associated token account
/// with the permission registry, under the token program's id.
pub fn create_permission_for_inco_account(
    registry: &mut PermissionRegistry,
    permissioned_account: Pubkey,
    wallet: Pubkey,
    mint: Pubkey,
    members: Option<Vec<Member>>,
) -> (r: Result<(), InstructionError>)
    ensures
        ({
            let derived = pda_of(
                spec_associated_account_seeds(wallet, mint),
                spec_token_program_id()@,
            );
            let addr_ok = match derived {
                Some((key, bump)) => key == permissioned_account@,
                None => false,
            };
            if addr_ok {
                let outcome = register_outcome(old(registry)@, permissioned_account, members);
                r == outcome.0 && final(registry)@ == outcome.1
            } else {
                r == Err::<(), InstructionError>(
                    InstructionError::Amm(ErrorCode::InvalidPermissionAccount),
                ) && final(registry)@ == old(registry)@
            }
        }),
{
    let seeds = associated_account_seeds(&wallet, &mint);
    let pid = token_program_id();
    register_derived(registry, permissioned_account, &seeds, &pid, members)
}

/// Hands an associated token account to the off-base-layer executor,
/// optionally pinned to a validator, under the token program's id.
pub fn delegate_inco_account(
    registry: &mut DelegationRegistry,
    pda: Pubkey,
    wallet: Pubkey,
    mint: Pubkey,
    validator: Option<Pubkey>,
) -> (r: Result<(), InstructionError>)
    ensures
        ({
            let derived = pda_of(
                spec_associated_account_seeds(wallet, mint),
                spec_token_program_id()@,
            );
            let addr_ok = match derived {
                Some((key, bump)) => key == pda@,
                None => false,
            };
            if addr_ok {
                let outcome = register_outcome(old(registry)@, pda, validator);
                r == outcome.0 && final(registry)@ == outcome.1
            } else {
                r == Err::<(), InstructionError>(
                    InstructionError::Amm(ErrorCode::InvalidPermissionAccount),
                ) && final(registry)@ == old(registry)@
            }
        }),
{
    let seeds = associated_account_seeds(&wallet, &mint);
    let pid = token_program_id();
    register_derived(registry, pda, &seeds, &pid, validator)
}

} // verus!
