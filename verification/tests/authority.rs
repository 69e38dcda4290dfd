use anchor_lang::prelude::Pubkey;
use token_custody::authority::{
    assemble, confirm, derive_authority, Address, DerivedAuthority, SeedTag,
};

fn key(n: u8) -> Address {
    Address { bytes: [n; 32] }
}

#[test]
fn addresses_compare_by_their_bytes() {
    let mut bytes = [7u8; 32];
    assert_eq!(Address { bytes }, key(7));
    bytes[31] = 8;
    assert_ne!(Address { bytes }, key(7));
    bytes[31] = 7;
    bytes[0] = 6;
    assert_ne!(Address { bytes }, key(7));
}

#[test]
fn seed_tags_have_their_texts() {
    assert_eq!(SeedTag::VestingVault.as_str(), "vesting-vault");
    assert_eq!(SeedTag::StakingVault.as_str(), "staking-vault");
    assert_eq!(SeedTag::Escrow.as_str(), "escrow");
}

#[test]
fn derive_agrees_with_the_program_address_search() {
    let program = Pubkey::new_from_array([9u8; 32]);
    let schedule = [3u8; 32];
    let (expected, bump) = Pubkey::find_program_address(&[b"vesting-vault", &schedule], &program);
    let authority = derive_authority(SeedTag::VestingVault, &key(3), &key(9)).unwrap();
    assert_eq!(authority.address.bytes, expected.to_bytes());
    assert_eq!(authority.bump, bump);
    assert_eq!(authority.tag, SeedTag::VestingVault);
    assert_eq!(authority.discriminator, key(3));
    assert_ne!(authority.address, key(3));
    assert_ne!(authority.address, key(9));
}

#[test]
fn derive_is_deterministic() {
    let first = derive_authority(SeedTag::Escrow, &key(1), &key(2));
    let second = derive_authority(SeedTag::Escrow, &key(1), &key(2));
    assert!(first.is_some());
    assert_eq!(first, second);
}

#[test]
fn derive_separates_tags_discriminators_and_programs() {
    let base = derive_authority(SeedTag::StakingVault, &key(1), &key(2)).unwrap();
    let other_tag = derive_authority(SeedTag::VestingVault, &key(1), &key(2)).unwrap();
    let other_key = derive_authority(SeedTag::StakingVault, &key(3), &key(2)).unwrap();
    let other_program = derive_authority(SeedTag::StakingVault, &key(1), &key(4)).unwrap();
    assert_ne!(base.address, other_tag.address);
    assert_ne!(base.address, other_key.address);
    assert_ne!(base.address, other_program.address);
}

#[test]
fn derived_address_can_be_recreated_from_its_bump() {
    let program = Pubkey::new_from_array([5u8; 32]);
    let authority = derive_authority(SeedTag::Escrow, &key(6), &key(5)).unwrap();
    let recreated = Pubkey::create_program_address(
        &[
            authority.tag.as_str().as_bytes(),
            &authority.discriminator.bytes,
            &[authority.bump],
        ],
        &program,
    )
    .unwrap();
    assert_eq!(recreated.to_bytes(), authority.address.bytes);
}

#[test]
fn assemble_packs_what_was_found() {
    assert_eq!(
        assemble(SeedTag::Escrow, &key(1), Some((key(2), 254))),
        Some(DerivedAuthority {
            address: key(2),
            tag: SeedTag::Escrow,
            discriminator: key(1),
            bump: 254,
        })
    );
    assert_eq!(assemble(SeedTag::Escrow, &key(1), None), None);
}

#[test]
fn confirm_accepts_only_the_matching_capability() {
    let authority = DerivedAuthority {
        address: key(2),
        tag: SeedTag::Escrow,
        discriminator: key(1),
        bump: 254,
    };
    assert_eq!(confirm(Some(authority), SeedTag::Escrow, &key(1), &key(2)), Some(authority));
    assert_eq!(confirm(Some(authority), SeedTag::StakingVault, &key(1), &key(2)), None);
    assert_eq!(confirm(Some(authority), SeedTag::Escrow, &key(3), &key(2)), None);
    assert_eq!(confirm(Some(authority), SeedTag::Escrow, &key(1), &key(3)), None);
    assert_eq!(confirm(None, SeedTag::Escrow, &key(1), &key(2)), None);
}
