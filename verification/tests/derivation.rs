use anchor_lang::solana_program::pubkey::Pubkey;
use entry_pass::derivation::{pass_collection_address, user_pass_address};
use entry_pass::Address;

fn address(byte: u8) -> Address {
    Address::new([byte; 32])
}

fn program() -> Address {
    address(42)
}

#[test]
fn collection_address_is_the_program_derived_address_of_its_seeds() {
    let organizer = Pubkey::new_from_array([1; 32]);
    let program_key = Pubkey::new_from_array([42; 32]);
    let (expected, bump) = Pubkey::find_program_address(
        &[b"pass-collection", organizer.as_ref(), "Gala".as_bytes()],
        &program_key,
    );
    let found = pass_collection_address(&program(), &address(1), "Gala");
    assert_eq!(found, Some((Address::new(expected.to_bytes()), bump)));
}

#[test]
fn pass_address_is_the_program_derived_address_of_its_seeds() {
    let pass_collection = Pubkey::new_from_array([9; 32]);
    let buyer = Pubkey::new_from_array([2; 32]);
    let program_key = Pubkey::new_from_array([42; 32]);
    let (expected, bump) = Pubkey::find_program_address(
        &[b"user-pass", pass_collection.as_ref(), buyer.as_ref()],
        &program_key,
    );
    let found = user_pass_address(&program(), &address(9), &address(2));
    assert_eq!(found, Some((Address::new(expected.to_bytes()), bump)));
}

#[test]
fn same_organizer_and_name_give_the_same_address() {
    let first = pass_collection_address(&program(), &address(1), "Gala");
    let second = pass_collection_address(&program(), &address(1), "Gala");
    assert!(first.is_some());
    assert_eq!(first, second);
}

#[test]
fn another_name_organizer_or_program_gives_another_address() {
    let gala = pass_collection_address(&program(), &address(1), "Gala").unwrap();
    let ball = pass_collection_address(&program(), &address(1), "Ball").unwrap();
    let other_organizer = pass_collection_address(&program(), &address(3), "Gala").unwrap();
    let other_program = pass_collection_address(&address(43), &address(1), "Gala").unwrap();
    assert_ne!(gala.0, ball.0);
    assert_ne!(gala.0, other_organizer.0);
    assert_ne!(gala.0, other_program.0);
}

#[test]
fn same_collection_and_buyer_give_the_same_address() {
    let first = user_pass_address(&program(), &address(9), &address(2)).unwrap();
    let second = user_pass_address(&program(), &address(9), &address(2)).unwrap();
    assert_eq!(first, second);
    let other_buyer = user_pass_address(&program(), &address(9), &address(3)).unwrap();
    assert_ne!(first.0, other_buyer.0);
    let swapped = user_pass_address(&program(), &address(2), &address(9)).unwrap();
    assert_ne!(first.0, swapped.0);
}

#[test]
fn derived_address_differs_from_its_inputs() {
    let (derived, _) = pass_collection_address(&program(), &address(1), "Gala").unwrap();
    assert_ne!(derived, address(1));
    assert_ne!(derived, program());
}

#[test]
fn name_longer_than_a_seed_has_no_address() {
    let longest = "n".repeat(32);
    let too_long = "n".repeat(33);
    assert!(pass_collection_address(&program(), &address(1), &longest).is_some());
    assert_eq!(pass_collection_address(&program(), &address(1), &too_long), None);
}

#[test]
fn name_is_seeded_by_its_bytes() {
    let organizer = Pubkey::new_from_array([1; 32]);
    let program_key = Pubkey::new_from_array([42; 32]);
    let name = "Caf\u{e9} \u{1f3ab}";
    let (expected, bump) = Pubkey::find_program_address(
        &[b"pass-collection", organizer.as_ref(), name.as_bytes()],
        &program_key,
    );
    let found = pass_collection_address(&program(), &address(1), name);
    assert_eq!(found, Some((Address::new(expected.to_bytes()), bump)));
}
