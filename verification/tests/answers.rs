use doorpasses::resources::AccessPasses;
use doorpasses::types::AccessPassState;
use doorpasses::wire::{read_optional_text, read_text_field};
use doorpasses::DoorPassesError;

const ALICE: &str = "{\"id\":\"p1\",\"full_name\":\"Alice\",\"start_date\":\"2024-01-01\",\"expiration_date\":\"2024-12-31\",\"state\":\"active\",\"email\":\"alice@example.com\"}";
const BOB: &str = "{\"id\":\"p2\",\"full_name\":\"Bob\",\"start_date\":\"2024-02-01\",\"expiration_date\":\"2024-06-30\",\"state\":\"revoked\",\"url\":\"https://install/p2\"}";

#[test]
fn list_preserves_server_order() {
    let body = format!("[{},{},{}]", BOB, ALICE, BOB);
    let passes = match AccessPasses::read_list(200, &body) {
        Ok(passes) => passes,
        Err(_) => panic!("expected a listing"),
    };
    let ids: Vec<&str> = passes.iter().map(|p| p.id.as_str()).collect();
    assert_eq!(ids, vec!["p2", "p1", "p2"]);
    assert_eq!(passes[1].full_name, "Alice");
    assert_eq!(passes[1].state, AccessPassState::Active);
    assert_eq!(passes[0].state, AccessPassState::Revoked);
}

#[test]
fn empty_array_is_an_empty_listing() {
    match AccessPasses::read_list(200, "[]") {
        Ok(passes) => assert!(passes.is_empty()),
        Err(_) => panic!("expected an empty listing"),
    }
    match AccessPasses::decode_list(" [ ] ") {
        Ok(passes) => assert_eq!(passes.len(), 0),
        Err(_) => panic!("expected an empty listing"),
    }
}

#[test]
fn listing_that_is_no_array_of_passes_is_a_serialization_error() {
    assert!(matches!(
        AccessPasses::read_list(200, "{\"passes\":[]}"),
        Err(DoorPassesError::SerializationError(_))
    ));
    assert!(matches!(
        AccessPasses::read_list(200, "[1,2"),
        Err(DoorPassesError::SerializationError(_))
    ));
    let body = format!("[{},{{\"id\":\"p3\"}}]", ALICE);
    assert!(matches!(
        AccessPasses::read_list(200, &body),
        Err(DoorPassesError::SerializationError(_))
    ));
}

#[test]
fn listing_under_429_is_rate_limited() {
    assert!(matches!(
        AccessPasses::read_list(429, "[]"),
        Err(DoorPassesError::RateLimitExceeded)
    ));
    assert!(matches!(AccessPasses::read_pass(429, ALICE), Err(DoorPassesError::RateLimitExceeded)));
}

#[test]
fn pass_is_read_field_by_field() {
    let pass = match AccessPasses::read_pass(201, ALICE) {
        Ok(pass) => pass,
        Err(_) => panic!("expected a pass"),
    };
    assert_eq!(pass.id, "p1");
    assert_eq!(pass.full_name, "Alice");
    assert_eq!(pass.start_date, "2024-01-01");
    assert_eq!(pass.expiration_date, "2024-12-31");
    assert_eq!(pass.email.as_deref(), Some("alice@example.com"));
    assert_eq!(pass.phone_number, None);
    assert_eq!(pass.employee_id, None);
    assert_eq!(pass.state, AccessPassState::Active);
    assert_eq!(pass.url, None);

    let pass = match AccessPasses::decode_pass(BOB) {
        Ok(pass) => pass,
        Err(_) => panic!("expected a pass"),
    };
    assert_eq!(pass.url.as_deref(), Some("https://install/p2"));
    assert_eq!(pass.state, AccessPassState::Revoked);
}

#[test]
fn pass_with_unknown_state_or_missing_field_is_a_serialization_error() {
    let unknown = "{\"id\":\"p1\",\"full_name\":\"A\",\"start_date\":\"s\",\"expiration_date\":\"e\",\"state\":\"melted\"}";
    assert!(matches!(
        AccessPasses::read_pass(200, unknown),
        Err(DoorPassesError::SerializationError(_))
    ));
    let nameless = "{\"id\":\"p1\",\"start_date\":\"s\",\"expiration_date\":\"e\",\"state\":\"active\"}";
    assert!(matches!(
        AccessPasses::decode_pass(nameless),
        Err(DoorPassesError::SerializationError(_))
    ));
    assert!(matches!(
        AccessPasses::decode_pass("not json"),
        Err(DoorPassesError::SerializationError(_))
    ));
}

#[test]
fn missing_pass_is_not_found() {
    match AccessPasses::read_pass(404, "{\"message\":\"no pass p9\"}") {
        Err(DoorPassesError::NotFound(msg)) => assert_eq!(msg, "no pass p9"),
        _ => panic!("expected NotFound"),
    }
}

#[test]
fn state_names_are_read_back() {
    assert_eq!(AccessPassState::parse("active"), Some(AccessPassState::Active));
    assert_eq!(AccessPassState::parse("suspended"), Some(AccessPassState::Suspended));
    assert_eq!(AccessPassState::parse("revoked"), Some(AccessPassState::Revoked));
    assert_eq!(AccessPassState::parse("expired"), Some(AccessPassState::Expired));
    assert_eq!(AccessPassState::parse("Active"), None);
    assert_eq!(AccessPassState::parse(""), None);
    assert_eq!(
        AccessPassState::parse(AccessPassState::Suspended.as_str()),
        Some(AccessPassState::Suspended)
    );
}

#[test]
fn optional_field_of_another_type_is_a_serialization_error() {
    let numbered = "{\"id\":\"p1\",\"full_name\":\"A\",\"start_date\":\"s\",\"expiration_date\":\"e\",\"state\":\"active\",\"email\":7}";
    assert!(matches!(
        AccessPasses::read_pass(200, numbered),
        Err(DoorPassesError::SerializationError(_))
    ));
    let listed = "{\"id\":\"p1\",\"full_name\":\"A\",\"start_date\":\"s\",\"expiration_date\":\"e\",\"state\":\"active\",\"url\":[\"u\"]}";
    match AccessPasses::decode_pass(listed) {
        Err(e) => assert_eq!(e.message(), "Serialization error: not an access pass"),
        Ok(_) => panic!("expected SerializationError"),
    }
    let body = format!("[{},{}]", ALICE, numbered);
    assert!(matches!(
        AccessPasses::read_list(200, &body),
        Err(DoorPassesError::SerializationError(_))
    ));
}

#[test]
fn optional_field_that_is_null_is_absent() {
    let nulls = "{\"id\":\"p1\",\"full_name\":\"A\",\"start_date\":\"s\",\"expiration_date\":\"e\",\"state\":\"expired\",\"email\":null,\"phone_number\":\"+1\",\"employee_id\":null}";
    let pass = match AccessPasses::decode_pass(nulls) {
        Ok(pass) => pass,
        Err(_) => panic!("expected a pass"),
    };
    assert_eq!(pass.email, None);
    assert_eq!(pass.phone_number.as_deref(), Some("+1"));
    assert_eq!(pass.employee_id, None);
    assert_eq!(pass.url, None);
    assert_eq!(pass.state, AccessPassState::Expired);
}

#[test]
fn required_field_that_is_null_or_of_another_type_is_a_serialization_error() {
    let null_id = "{\"id\":null,\"full_name\":\"A\",\"start_date\":\"s\",\"expiration_date\":\"e\",\"state\":\"active\"}";
    assert!(matches!(
        AccessPasses::decode_pass(null_id),
        Err(DoorPassesError::SerializationError(_))
    ));
    let number_name = "{\"id\":\"p\",\"full_name\":1,\"start_date\":\"s\",\"expiration_date\":\"e\",\"state\":\"active\"}";
    assert!(matches!(
        AccessPasses::decode_pass(number_name),
        Err(DoorPassesError::SerializationError(_))
    ));
}

#[test]
fn fields_are_told_apart_by_what_they_hold() {
    let text = "{\"a\":\"x\",\"b\":null,\"c\":3,\"d\":true,\"e\":[],\"f\":{}}";
    assert_eq!(read_text_field(text, "a").as_deref(), Some("x"));
    assert_eq!(read_text_field(text, "b"), None);
    assert_eq!(read_text_field(text, "c"), None);
    assert_eq!(read_text_field(text, "z"), None);
    assert_eq!(read_text_field("not json", "a"), None);
    assert_eq!(read_text_field("[\"a\"]", "a"), None);
    assert_eq!(read_optional_text(text, "a"), Some(Some("x".to_string())));
    assert_eq!(read_optional_text(text, "b"), Some(None));
    assert_eq!(read_optional_text(text, "z"), Some(None));
    assert_eq!(read_optional_text(text, "c"), None);
    assert_eq!(read_optional_text(text, "d"), None);
    assert_eq!(read_optional_text(text, "e"), None);
    assert_eq!(read_optional_text(text, "f"), None);
}
