//! Authorities that may move a balance: the caller, who signs for itself, and
//! the two pool authorities, which are derived from a fixed seed and hold no
//! key of their own.

use vstd::prelude::*;
use anchor_lang::prelude::Pubkey;
use crate::identity::{Identity, PROGRAM_ID};

verus! {

/// The two pools that the exchange controls.
#[derive(Clone, Copy, Debug, PartialEq, Eq, Structural)]
pub enum Pool {
    /// Holds the liquidity that swaps draw on.
    Vault,
    /// Collects the fees.
    Treasury,
}

/// Seed of the configuration record's address.
pub const STATE_SEED: [u8; 5] = [115, 116, 97, 116, 101];

/// Seed of the vault authority.
pub const VAULT_SEED: [u8; 5] = [118, 97, 117, 108, 116];

/// Seed of the treasury authority.
pub const TREASURY_SEED: [u8; 8] = [116, 114, 101, 97, 115, 117, 114, 121];

impl Pool {
    /// The seed from which the pool's authority is derived.
    pub open spec fn seed(self) -> Seq<u8> {
        match self {
            Pool::Vault => VAULT_SEED@,
            Pool::Treasury => TREASURY_SEED@,
        }
    }

    /// The seed from which the pool's authority is derived.
    pub fn seed_bytes(self) -> (r: Vec<u8>)
        ensures
            r@ == self.seed(),
    {
        let mut bytes: Vec<u8> = Vec::new();
        match self {
            Pool::Vault => {
                let seed: [u8; 5] = VAULT_SEED;
                let mut i: usize = 0;
                while i < 5
                    invariant
                        i <= 5,
                        seed@ == VAULT_SEED@,
                        bytes@ == seed@.subrange(0, i as int),
                    decreases 5 - i,
                {
                    bytes.push(seed[i]);
                    i += 1;
                    assert(bytes@ =~= seed@.subrange(0, i as int));
                }
                assert(bytes@ =~= seed@);
            },
            Pool::Treasury => {
                let seed: [u8; 8] = TREASURY_SEED;
                let mut i: usize = 0;
                while i < 8
                    invariant
                        i <= 8,
                        seed@ == TREASURY_SEED@,
                        bytes@ == seed@.subrange(0, i as int),
                    decreases 8 - i,
                {
                    bytes.push(seed[i]);
                    i += 1;
                    assert(bytes@ =~= seed@.subrange(0, i as int));
                }
                assert(bytes@ =~= seed@);
            },
        }
        bytes
    }
}

/// What address derivation yields for a seed under a program's address: the
/// derived address with its disambiguating byte, or nothing where no byte
/// gives a valid address.
pub uninterp spec fn derived_address(seed: Seq<u8>, program: Seq<u8>) -> Option<(Seq<u8>, u8)>;

/// Calls `Pubkey::try_find_program_address` with the one seed given. The
/// contract claims only that the outcome is a function of seed and program
/// address, and gives that function its name.
#[verifier::external_body]
fn try_find_program_address(seed: &[u8], program: &[u8; 32]) -> (r: Option<([u8; 32], u8)>)
    ensures
        r matches Some((address, bump)) ==> derived_address(seed@, program@) == Some(
            (address@, bump),
        ),
        r is None ==> derived_address(seed@, program@) is None,
{
    let program_id = Pubkey::new_from_array(*program);
    Pubkey::try_find_program_address(&[seed], &program_id).map(
        |(address, bump)| (address.to_bytes(), bump),
    )
}

/// An authority that can be cited on a transfer.
#[derive(Clone, Copy, Debug, PartialEq, Eq)]
pub enum AuthorityHandle {
    /// An identity that signs for itself.
    Signer { identity: Identity },
    /// A pool authority: no key exists for it, and it is cited by its derived
    /// address together with the seed and disambiguating byte that prove it.
    Derived { pool: Pool, address: Identity, bump: u8 },
}

impl AuthorityHandle {
    /// The address that the ledger compares with an account's controller.
    pub open spec fn spec_address(self) -> Identity {
        match self {
            AuthorityHandle::Signer { identity } => identity,
            AuthorityHandle::Derived { address, .. } => address,
        }
    }

    /// The address that the ledger compares with an account's controller.
    #[verifier::when_used_as_spec(spec_address)]
    pub fn address(self) -> (r: Identity)
        ensures
            r == self.spec_address(),
    {
        match self {
            AuthorityHandle::Signer { identity } => identity,
            AuthorityHandle::Derived { address, .. } => address,
        }
    }

    /// A derived handle is genuine when derivation from its pool's seed under
    /// the exchange's own address yields its address and byte. A signer's
    /// handle makes no such claim.
    pub open spec fn genuine(self) -> bool {
        match self {
            AuthorityHandle::Signer { .. } => true,
            AuthorityHandle::Derived { pool, address, bump } => derived_address(
                pool.seed(),
                PROGRAM_ID@,
            ) == Some((address@, bump)),
        }
    }

    /// Whether this is the genuine handle of `pool`'s authority.
    pub open spec fn derived_for(self, pool: Pool) -> bool {
        match self {
            AuthorityHandle::Signer { .. } => false,
            AuthorityHandle::Derived { pool: of, .. } => of == pool && self.genuine(),
        }
    }

    /// What a host signs with in this authority's name: the seed and the
    /// disambiguating byte of a derived authority; nothing for a signer, whose
    /// own signature stands.
    pub open spec fn spec_signing_seed(self) -> Option<(Seq<u8>, u8)> {
        match self {
            AuthorityHandle::Signer { .. } => None,
            AuthorityHandle::Derived { pool, bump, .. } => Some((pool.seed(), bump)),
        }
    }

    /// What a host signs with in this authority's name.
    pub fn signing_seed(self) -> (r: Option<(Vec<u8>, u8)>)
        ensures
            match self.spec_signing_seed() {
                Some((seed, bump)) => r matches Some((bytes, byte)) && bytes@ == seed && byte
                    == bump,
                None => r is None,
            },
    {
        match self {
            AuthorityHandle::Signer { .. } => None,
            AuthorityHandle::Derived { pool, bump, .. } => Some((pool.seed_bytes(), bump)),
        }
    }

    /// The handle of an identity that signs for itself.
    pub fn signer(identity: Identity) -> (r: AuthorityHandle)
        ensures
            r == (AuthorityHandle::Signer { identity }),
    {
        AuthorityHandle::Signer { identity }
    }

    /// The handle that a derivation outcome gives for `pool`: none where the
    /// derivation found no address.
    pub fn from_derivation(pool: Pool, derived: Option<([u8; 32], u8)>) -> (r: Option<
        AuthorityHandle,
    >)
        ensures
            match derived {
                Some((bytes, bump)) => r == Some(
                    AuthorityHandle::Derived { pool, address: Identity { bytes }, bump },
                ),
                None => r is None,
            },
    {
        match derived {
            Some((bytes, bump)) => Some(
                AuthorityHandle::Derived { pool, address: Identity { bytes }, bump },
            ),
            None => None,
        }
    }

    /// Derives the authority of `pool` under the exchange's own address.
    pub fn derive(pool: Pool) -> (r: Option<AuthorityHandle>)
        ensures
            r is Some <==> derived_address(pool.seed(), PROGRAM_ID@) is Some,
            r matches Some(handle) ==> handle.derived_for(pool),
    {
        let program: [u8; 32] = PROGRAM_ID;
        let seed = pool.seed_bytes();
        let derived = try_find_program_address(seed.as_slice(), &program);
        AuthorityHandle::from_derivation(pool, derived)
    }
}

/// The address of the configuration record: the one derived from the state
/// seed under the exchange's own address, if derivation finds one.
pub fn config_address() -> (r: Option<Identity>)
    ensures
        match derived_address(STATE_SEED@, PROGRAM_ID@) {
            Some((address, _)) => r matches Some(found) && found@ == address,
            None => r is None,
        },
{
    let program: [u8; 32] = PROGRAM_ID;
    let seed: [u8; 5] = STATE_SEED;
    match try_find_program_address(seed.as_slice(), &program) {
        Some((bytes, _)) => Some(Identity { bytes }),
        None => None,
    }
}

} // verus!
