use anchor_lang::prelude::Pubkey;
use std::str::FromStr;
use trustscore_vault::address::Address;
use trustscore_vault::derivation::{
    derive_signer_address, derive_vault_address, program_id, MAX_SEED_LEN, PROGRAM_ID, VAULT_TAG,
};

fn counting_user() -> Address {
    let mut bytes = [0u8; 32];
    for (i, b) in bytes.iter_mut().enumerate() {
        *b = i as u8 + 1;
    }
    Address { bytes }
}

fn filled(byte: u8) -> Address {
    Address { bytes: [byte; 32] }
}

const COUNTING_VAULT: [u8; 32] = [
    95, 78, 222, 0, 36, 197, 248, 14, 5, 222, 242, 89, 15, 147, 67, 202, 9, 147, 18, 104, 33, 238,
    31, 45, 26, 17, 133, 63, 158, 239, 111, 202,
];

const SEVENS_VAULT: [u8; 32] = [
    97, 88, 46, 36, 180, 128, 199, 58, 127, 222, 200, 81, 100, 187, 68, 154, 161, 48, 46, 72, 157,
    233, 96, 58, 26, 148, 107, 176, 220, 61, 121, 86,
];

const FORTY_TWOS_VAULT: [u8; 32] = [
    6, 254, 16, 52, 114, 229, 180, 124, 122, 108, 225, 28, 66, 139, 123, 244, 3, 122, 22, 170, 82,
    94, 42, 135, 174, 53, 95, 113, 98, 212, 44, 219,
];

#[test]
fn vault_tag_and_seed_limit_are_the_ledgers() {
    assert_eq!(&VAULT_TAG, b"vault");
    assert_eq!(MAX_SEED_LEN, 32);
    assert_eq!(MAX_SEED_LEN, anchor_lang::solana_program::pubkey::MAX_SEED_LEN);
}

#[test]
fn program_id_is_the_declared_address() {
    let declared = Pubkey::from_str("BAoYiH6vNDCvZgggccAisSNRtCCtDDnzWkfU2Hu3SmEb").unwrap();
    assert_eq!(program_id().bytes, declared.to_bytes());
    assert_eq!(PROGRAM_ID, declared.to_bytes());
}

#[test]
fn derives_the_known_vault_of_a_user() {
    assert_eq!(
        derive_vault_address(&counting_user()),
        Some((Address { bytes: COUNTING_VAULT }, 253))
    );
    assert_eq!(derive_vault_address(&filled(7)), Some((Address { bytes: SEVENS_VAULT }, 255)));
    assert_eq!(
        derive_vault_address(&filled(42)),
        Some((Address { bytes: FORTY_TWOS_VAULT }, 254))
    );
}

#[test]
fn derivation_agrees_with_the_ledger_library() {
    let program = Pubkey::new_from_array(PROGRAM_ID);
    for byte in 0..=255u8 {
        let user = filled(byte);
        let expected = Pubkey::try_find_program_address(&[b"vault", &user.bytes], &program)
            .map(|(key, bump)| (Address { bytes: key.to_bytes() }, bump));
        assert_eq!(derive_vault_address(&user), expected);
        assert!(expected.is_some());
    }
}

#[test]
fn rederivation_is_stable() {
    let user = counting_user();
    let first = derive_vault_address(&user);
    let second = derive_vault_address(&user);
    let third = derive_vault_address(&user.clone());
    assert_eq!(first, second);
    assert_eq!(first, third);
}

#[test]
fn derived_address_is_not_the_users_own() {
    let user = counting_user();
    let (vault, _) = derive_vault_address(&user).unwrap();
    assert_ne!(vault, user);
    assert!(!vault.equals(&user));
}

#[test]
fn different_users_have_different_vaults() {
    let (a, _) = derive_vault_address(&filled(7)).unwrap();
    let (b, _) = derive_vault_address(&filled(9)).unwrap();
    assert_ne!(a, b);
}

#[test]
fn canonical_bump_derives_the_vault_without_a_search() {
    for user in [counting_user(), filled(7), filled(42), filled(1), filled(16)] {
        let (vault, bump) = derive_vault_address(&user).unwrap();
        assert_eq!(derive_signer_address(&user, bump), Some(vault));
    }
}

#[test]
fn canonical_bump_is_the_largest_that_derives_an_address() {
    let user = counting_user();
    assert_eq!(derive_signer_address(&user, 255), None);
    assert_eq!(derive_signer_address(&user, 254), None);
    assert_eq!(derive_signer_address(&user, 253), Some(Address { bytes: COUNTING_VAULT }));
    for byte in 0..=255u8 {
        let user = filled(byte);
        let (vault, bump) = derive_vault_address(&user).unwrap();
        assert!(bump >= 1);
        assert_eq!(derive_signer_address(&user, bump), Some(vault));
        for larger in (bump as u16 + 1)..=255 {
            assert_eq!(derive_signer_address(&user, larger as u8), None);
        }
    }
}

#[test]
fn another_bump_does_not_derive_the_vault() {
    let user = counting_user();
    let vault = Address { bytes: COUNTING_VAULT };
    for bump in 0..253u8 {
        assert_ne!(derive_signer_address(&user, bump), Some(vault));
    }
}

#[test]
fn signer_address_agrees_with_the_ledger_library() {
    let program = Pubkey::new_from_array(PROGRAM_ID);
    let user = filled(200);
    for bump in 0..=255u8 {
        let expected = Pubkey::create_program_address(&[b"vault", &user.bytes, &[bump]], &program)
            .ok()
            .map(|key| Address { bytes: key.to_bytes() });
        assert_eq!(derive_signer_address(&user, bump), expected);
    }
}

#[test]
fn equals_compares_every_byte() {
    let a = counting_user();
    let mut b = a;
    assert!(a.equals(&b));
    b.bytes[31] ^= 1;
    assert!(!a.equals(&b));
    b = a;
    b.bytes[0] ^= 0x80;
    assert!(!a.equals(&b));
    assert!(!b.equals(&a));
    b = a;
    b.bytes[17] = a.bytes[17].wrapping_add(1);
    assert!(!a.equals(&b));
}
