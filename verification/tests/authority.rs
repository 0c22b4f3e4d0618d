use std::str::FromStr;

use anchor_lang::prelude::Pubkey;
use spl_swap::authority::{
    config_address,
    AuthorityHandle, Pool, STATE_SEED, TREASURY_SEED, VAULT_SEED,
};
use spl_swap::identity::{Asset, Identity, MEA_SPL2022_MINT, MEA_SPL_MINT, PROGRAM_ID};

#[test]
fn fixed_addresses_are_the_published_ones() {
    let program = Pubkey::from_str("3kKTmWvgAUmz1jdUMJhUo2hnytJSWh3e7naTRPEN8uYu").unwrap();
    let spl2022 = Pubkey::from_str("AvVBjJboAbFJqCpHvMkECiJYs1rSEFTpQZdJAKMsyctR").unwrap();
    let spl = Pubkey::from_str("78cBBeErJRUVwKia3DMav2iFzEaj2KK5G3F6jLsW4umL").unwrap();
    assert_eq!(PROGRAM_ID, program.to_bytes());
    assert_eq!(MEA_SPL2022_MINT, spl2022.to_bytes());
    assert_eq!(MEA_SPL_MINT, spl.to_bytes());
}

#[test]
fn seeds_are_the_words() {
    assert_eq!(&STATE_SEED, b"state");
    assert_eq!(&VAULT_SEED, b"vault");
    assert_eq!(&TREASURY_SEED, b"treasury");
}

#[test]
fn assets_have_their_mints() {
    assert_eq!(Asset::Spl.mint(), Identity::new(MEA_SPL_MINT));
    assert_eq!(Asset::Spl2022.mint(), Identity::new(MEA_SPL2022_MINT));
    assert_ne!(Asset::Spl.mint(), Asset::Spl2022.mint());
    assert_eq!(Asset::Spl.other(), Asset::Spl2022);
    assert_eq!(Asset::Spl2022.other(), Asset::Spl);
}

#[test]
fn vault_authority_is_the_derived_address() {
    let program = Pubkey::new_from_array(PROGRAM_ID);
    let (address, bump) = Pubkey::find_program_address(&[b"vault"], &program);
    assert_eq!(
        AuthorityHandle::derive(Pool::Vault),
        Some(AuthorityHandle::Derived {
            pool: Pool::Vault,
            address: Identity::new(address.to_bytes()),
            bump,
        })
    );
}

#[test]
fn treasury_authority_is_the_derived_address() {
    let program = Pubkey::new_from_array(PROGRAM_ID);
    let (address, bump) = Pubkey::find_program_address(&[b"treasury"], &program);
    assert_eq!(
        AuthorityHandle::derive(Pool::Treasury),
        Some(AuthorityHandle::Derived {
            pool: Pool::Treasury,
            address: Identity::new(address.to_bytes()),
            bump,
        })
    );
}

#[test]
fn derived_authority_is_proved_by_seed_and_bump() {
    let program = Pubkey::new_from_array(PROGRAM_ID);
    match AuthorityHandle::derive(Pool::Vault) {
        Some(AuthorityHandle::Derived { address, bump, .. }) => {
            let proved = Pubkey::create_program_address(&[b"vault", &[bump]], &program).unwrap();
            assert_eq!(address.bytes, proved.to_bytes());
            assert!(!proved.is_on_curve());
            assert_ne!(address.bytes, PROGRAM_ID);
        }
        other => panic!("no derived authority: {:?}", other),
    }
}

#[test]
fn pools_have_different_authorities() {
    let vault = AuthorityHandle::derive(Pool::Vault).unwrap();
    let treasury = AuthorityHandle::derive(Pool::Treasury).unwrap();
    assert_ne!(vault.address(), treasury.address());
}

#[test]
fn derivation_is_repeatable() {
    assert_eq!(AuthorityHandle::derive(Pool::Vault), AuthorityHandle::derive(Pool::Vault));
    assert_eq!(AuthorityHandle::derive(Pool::Treasury), AuthorityHandle::derive(Pool::Treasury));
}

#[test]
fn handle_from_a_derivation_outcome() {
    assert_eq!(AuthorityHandle::from_derivation(Pool::Vault, None), None);
    assert_eq!(
        AuthorityHandle::from_derivation(Pool::Treasury, Some(([3; 32], 254))),
        Some(AuthorityHandle::Derived {
            pool: Pool::Treasury,
            address: Identity::new([3; 32]),
            bump: 254,
        })
    );
}

#[test]
fn signer_handle_cites_the_signer() {
    let who = Identity::new([5; 32]);
    let handle = AuthorityHandle::signer(who);
    assert_eq!(handle, AuthorityHandle::Signer { identity: who });
    assert_eq!(handle.address(), who);
}

#[test]
fn derived_authority_signs_with_seed_and_byte() {
    let vault = AuthorityHandle::Derived {
        pool: Pool::Vault,
        address: Identity::new([3; 32]),
        bump: 251,
    };
    assert_eq!(vault.signing_seed(), Some((b"vault".to_vec(), 251)));
    let treasury = AuthorityHandle::Derived {
        pool: Pool::Treasury,
        address: Identity::new([3; 32]),
        bump: 7,
    };
    assert_eq!(treasury.signing_seed(), Some((b"treasury".to_vec(), 7)));
    assert_eq!(AuthorityHandle::signer(Identity::new([3; 32])).signing_seed(), None);
    assert_eq!(Pool::Vault.seed_bytes(), VAULT_SEED.to_vec());
    assert_eq!(Pool::Treasury.seed_bytes(), TREASURY_SEED.to_vec());
}

#[test]
fn configuration_lives_at_the_derived_address() {
    let program = Pubkey::new_from_array(PROGRAM_ID);
    let (address, _) = Pubkey::find_program_address(&[b"state"], &program);
    assert_eq!(config_address(), Some(Identity::new(address.to_bytes())));
    assert_ne!(config_address(), AuthorityHandle::derive(Pool::Vault).map(|h| h.address()));
}
