use nft_lending::authority::{derive_escrow_authority, keys_equal, verify_escrow_authority};
use solana_pubkey::Pubkey;

const PROGRAM_ID: [u8; 32] = [7; 32];

fn agreement_key(n: u8) -> [u8; 32] {
    let mut k = [0u8; 32];
    k[0] = n;
    k
}

#[test]
fn derivation_matches_ledger_primitive() {
    let key = agreement_key(1);
    let program = Pubkey::new_from_array(PROGRAM_ID);
    let (expected_key, expected_bump) =
        Pubkey::find_program_address(&[key.as_ref(), b"authority".as_ref()], &program);
    let derived = derive_escrow_authority(&key, &PROGRAM_ID);
    assert_eq!(derived, Some((expected_key.to_bytes(), expected_bump)));
}

#[test]
fn derivation_is_deterministic() {
    let key = agreement_key(2);
    let first = derive_escrow_authority(&key, &PROGRAM_ID);
    let second = derive_escrow_authority(&key, &PROGRAM_ID);
    assert!(first.is_some());
    assert_eq!(first, second);
}

#[test]
fn distinct_agreements_get_distinct_authorities() {
    let first = derive_escrow_authority(&agreement_key(3), &PROGRAM_ID).unwrap();
    let second = derive_escrow_authority(&agreement_key(4), &PROGRAM_ID).unwrap();
    assert_ne!(first.0, second.0);
}

#[test]
fn verification_accepts_exactly_the_derived_authority() {
    let key = agreement_key(5);
    let (derived_key, bump) = derive_escrow_authority(&key, &PROGRAM_ID).unwrap();
    assert!(verify_escrow_authority(&key, &PROGRAM_ID, &derived_key, bump));
    // a wrong disambiguation byte is rejected
    assert!(!verify_escrow_authority(&key, &PROGRAM_ID, &derived_key, bump.wrapping_add(1)));
    // a wrong identity is rejected
    let mut wrong_key = derived_key;
    wrong_key[31] = wrong_key[31].wrapping_add(1);
    assert!(!verify_escrow_authority(&key, &PROGRAM_ID, &wrong_key, bump));
    // another agreement's authority is rejected
    let (other_key, other_bump) = derive_escrow_authority(&agreement_key(6), &PROGRAM_ID).unwrap();
    assert!(!verify_escrow_authority(&key, &PROGRAM_ID, &other_key, other_bump));
}

#[test]
fn derived_authority_has_no_private_key() {
    // a program-derived address never lies on the curve, so no key pair signs for it
    let key = agreement_key(8);
    let (derived_key, _) = derive_escrow_authority(&key, &PROGRAM_ID).unwrap();
    assert!(!solana_pubkey::bytes_are_curve_point(derived_key));
}

#[test]
fn keys_equal_compares_all_bytes() {
    let a = agreement_key(9);
    let mut b = agreement_key(9);
    assert!(keys_equal(&a, &b));
    b[31] = 1;
    assert!(!keys_equal(&a, &b));
}
