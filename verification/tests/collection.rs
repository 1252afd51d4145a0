use entry_pass::state::{expiry, fits_bounds, MAX_DESCRIPTION_BYTES, MAX_NAME_BYTES, NEVER_EXPIRES};
use entry_pass::{create_pass_collection, Address, CreatePassCollection, ErrorCode, PassCollection};

fn address(byte: u8) -> Address {
    Address::new([byte; 32])
}

#[test]
fn created_collection_has_issued_nothing() {
    let mut ctx = CreatePassCollection { pass_collection: None, organizer: address(1), bump: 250 };
    let result = create_pass_collection(
        &mut ctx,
        String::from("Festival"),
        String::from("Three days of music"),
        1_000_000,
        500,
        259_200,
        1_700_000_000,
    );
    assert_eq!(result, Ok(()));
    assert_eq!(
        ctx.pass_collection,
        Some(PassCollection {
            organizer: address(1),
            name: String::from("Festival"),
            description: String::from("Three days of music"),
            price: 1_000_000,
            max_supply: 500,
            current_supply: 0,
            validity_period: 259_200,
            created_at: 1_700_000_000,
            bump: 250,
        })
    );
    assert_eq!(ctx.organizer, address(1));
    assert_eq!(ctx.bump, 250);
}

#[test]
fn collection_of_no_supply_can_be_created() {
    let mut ctx = CreatePassCollection { pass_collection: None, organizer: address(1), bump: 255 };
    let result = create_pass_collection(&mut ctx, String::new(), String::new(), 0, 0, -1, 0);
    assert_eq!(result, Ok(()));
    let stored = ctx.pass_collection.unwrap();
    assert_eq!(stored.current_supply, 0);
    assert_eq!(stored.max_supply, 0);
}

#[test]
fn second_collection_of_the_same_name_is_refused() {
    let mut ctx = CreatePassCollection { pass_collection: None, organizer: address(1), bump: 250 };
    let first = create_pass_collection(
        &mut ctx,
        String::from("Festival"),
        String::from("first"),
        10,
        5,
        60,
        100,
    );
    assert_eq!(first, Ok(()));
    let before = ctx.clone();
    let second = create_pass_collection(
        &mut ctx,
        String::from("Festival"),
        String::from("second"),
        20,
        6,
        70,
        200,
    );
    assert_eq!(second, Err(ErrorCode::AlreadyExists));
    assert_eq!(ctx, before);
}

#[test]
fn texts_are_bounded_in_bytes() {
    assert_eq!(MAX_NAME_BYTES, 50);
    assert_eq!(MAX_DESCRIPTION_BYTES, 200);
    let name_50 = "n".repeat(50);
    let name_51 = "n".repeat(51);
    let description_200 = "d".repeat(200);
    let description_201 = "d".repeat(201);
    assert!(fits_bounds("", ""));
    assert!(fits_bounds(&name_50, &description_200));
    assert!(!fits_bounds(&name_51, &description_200));
    assert!(!fits_bounds(&name_50, &description_201));
    assert!(!fits_bounds(&name_51, &description_201));
}

#[test]
fn texts_are_measured_in_bytes_not_characters() {
    let twenty_five = "\u{e9}".repeat(25);
    let twenty_six = "\u{e9}".repeat(26);
    assert_eq!(twenty_five.len(), 50);
    assert!(fits_bounds(&twenty_five, ""));
    assert!(!fits_bounds(&twenty_six, ""));
    let fifty_wide = "\u{1f3ab}".repeat(50);
    assert_eq!(fifty_wide.len(), 200);
    assert!(fits_bounds("", &fifty_wide));
    let fifty_one_wide = "\u{1f3ab}".repeat(51);
    assert!(!fits_bounds("", &fifty_one_wide));
}

#[test]
fn never_expires_is_the_largest_timestamp() {
    assert_eq!(NEVER_EXPIRES, i64::MAX);
}

#[test]
fn expiry_adds_a_positive_validity_period() {
    assert_eq!(expiry(1000, 3600), Some(4600));
    assert_eq!(expiry(-50, 20), Some(-30));
    assert_eq!(expiry(i64::MIN, i64::MAX), Some(-1));
    assert_eq!(expiry(0, 1), Some(1));
}

#[test]
fn expiry_of_a_period_of_zero_or_less_is_never() {
    assert_eq!(expiry(1000, 0), Some(i64::MAX));
    assert_eq!(expiry(1000, -1), Some(i64::MAX));
    assert_eq!(expiry(i64::MAX, i64::MIN), Some(i64::MAX));
}

#[test]
fn expiry_past_the_largest_timestamp_is_none() {
    assert_eq!(expiry(i64::MAX, 1), None);
    assert_eq!(expiry(i64::MAX - 3600, 3601), None);
    assert_eq!(expiry(1, i64::MAX), None);
    assert_eq!(expiry(i64::MAX - 3600, 3600), Some(i64::MAX));
    assert_eq!(expiry(0, i64::MAX), Some(i64::MAX));
}

#[test]
fn error_messages() {
    assert_eq!(
        ErrorCode::MaxSupplyReached.message(),
        "Maximum supply reached for this pass collection"
    );
    assert_eq!(ErrorCode::AlreadyExists.message(), "A record already exists at the derived address");
    assert_eq!(ErrorCode::Unauthorized.message(), "The caller is not authorized for this operation");
    assert_eq!(ErrorCode::TransferFailed.message(), "The payment could not be transferred");
}

#[test]
fn addresses_are_equal_when_their_bytes_are() {
    let mut bytes = [7u8; 32];
    let first = Address::new(bytes);
    assert_eq!(first, Address::new([7u8; 32]));
    assert_eq!(first.bytes, bytes);
    bytes[31] = 8;
    assert_ne!(first, Address::new(bytes));
    bytes[31] = 7;
    bytes[0] = 0;
    assert_ne!(first, Address::new(bytes));
    bytes[0] = 7;
    bytes[16] = 200;
    assert_ne!(first, Address::new(bytes));
}
