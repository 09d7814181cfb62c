use black_jack::address::{get_account_public_key, get_account_seed, MAX_SEED_LEN};
use black_jack::error::{DerivationError, Error};
use solana_program::pubkey::Pubkey;

#[test]
fn account_seed_is_the_name_of_the_game() {
    assert_eq!(get_account_seed(), "black_jack");
    assert!(get_account_seed().len() <= MAX_SEED_LEN);
}

#[test]
fn account_address_is_derived_from_player_seed_and_program() {
    let player = [1u8; 32];
    let program = [2u8; 32];
    let expected = Pubkey::create_with_seed(
        &Pubkey::new_from_array(player),
        "black_jack",
        &Pubkey::new_from_array(program),
    )
    .unwrap();
    let address = get_account_public_key(&player, &program).unwrap();
    assert_eq!(address, expected.to_bytes());
    assert_ne!(address, player);
    assert_ne!(address, program);
}

#[test]
fn account_address_depends_on_both_keys() {
    let first = get_account_public_key(&[1; 32], &[2; 32]).unwrap();
    assert_eq!(first, get_account_public_key(&[1; 32], &[2; 32]).unwrap());
    assert_ne!(first, get_account_public_key(&[3; 32], &[2; 32]).unwrap());
    assert_ne!(first, get_account_public_key(&[1; 32], &[3; 32]).unwrap());
    assert_ne!(first, get_account_public_key(&[2; 32], &[1; 32]).unwrap());
}

#[test]
fn program_that_ends_in_the_derived_marker_has_no_account() {
    let mut program = [9u8; 32];
    program[11..].copy_from_slice(b"ProgramDerivedAddress");
    assert!(matches!(
        get_account_public_key(&[1; 32], &program),
        Err(Error::KeyDerivationError(DerivationError::IllegalOwner))
    ));
    program[31] = b'S';
    assert!(get_account_public_key(&[1; 32], &program).is_ok());
}
