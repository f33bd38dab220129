use duk::error::AppError;
use duk::validation::{
    validate_country, validate_email, validate_language, validate_notification_setting_type,
    validate_notification_type, validate_search_query, validate_sort_option, validate_uuid,
};

fn message<T>(r: Result<T, AppError>) -> String {
    match r {
        Err(AppError::Validation(m)) => m,
        _ => panic!("expected a validation error"),
    }
}

#[test]
fn languages_and_countries() {
    assert_eq!(validate_language("").ok().unwrap(), "en");
    assert_eq!(validate_language("ja").ok().unwrap(), "ja");
    assert_eq!(
        message(validate_language("fr")),
        "Unsupported language: fr. Supported: [\"en\", \"ko\", \"ja\", \"zh\"]"
    );
    assert_eq!(validate_country("").ok().unwrap(), "KR");
    assert_eq!(validate_country("US").ok().unwrap(), "US");
    assert_eq!(
        message(validate_country("us")),
        "Unsupported country: us. Supported: [\"KR\", \"JP\", \"US\", \"CN\"]"
    );
}

#[test]
fn notification_words() {
    assert!(validate_notification_type("shop_subscription").is_ok());
    assert!(message(validate_notification_type("shop")).starts_with("Invalid notification type: shop."));
    assert!(validate_notification_setting_type("category").is_ok());
    assert!(validate_notification_setting_type("discount_update").is_err());
}

#[test]
fn uuids() {
    assert_eq!(
        validate_uuid("67e55044-10b1-426f-9247-bb680e5fe0c8").ok().unwrap(),
        "67e55044-10b1-426f-9247-bb680e5fe0c8"
    );
    assert_eq!(message(validate_uuid("not-a-uuid")), "Invalid UUID format: not-a-uuid");
}

#[test]
fn emails() {
    assert_eq!(message(validate_email("")), "Email cannot be empty");
    assert_eq!(message(validate_email("nobody")), "Invalid email format");
    assert_eq!(validate_email("a@b").ok().unwrap(), "a@b");
}

#[test]
fn search_queries() {
    assert_eq!(message(validate_search_query("")), "Search query cannot be empty");
    assert_eq!(message(validate_search_query("a")), "Search query must be at least 2 characters");
    assert_eq!(
        message(validate_search_query(&"x".repeat(101))),
        "Search query cannot exceed 100 characters"
    );
    assert_eq!(validate_search_query("  red shoes ").ok().unwrap(), "red shoes");
    assert_eq!(validate_search_query("가").ok().unwrap(), "가");
}

#[test]
fn sort_options() {
    let allowed = ["name", "price"];
    let (f, d) = validate_sort_option("", &allowed).ok().unwrap();
    assert_eq!((f.as_str(), d.as_str()), ("created_at", "desc"));
    let (f, d) = validate_sort_option("price:asc", &allowed).ok().unwrap();
    assert_eq!((f.as_str(), d.as_str()), ("price", "asc"));
    assert_eq!(
        message(validate_sort_option("price", &allowed)),
        "Sort format must be 'field:direction' (e.g., 'name:asc')"
    );
    assert!(validate_sort_option("a:b:c", &allowed).is_err());
    assert_eq!(
        message(validate_sort_option("size:asc", &allowed)),
        "Invalid sort field: size. Allowed: [\"name\", \"price\"]"
    );
    assert_eq!(
        message(validate_sort_option("name:up", &allowed)),
        "Sort direction must be 'asc' or 'desc'"
    );
}

#[test]
fn uuid_forms() {
    for ok in [
        "67e5504410b1426f9247bb680e5fe0c8",
        "67E55044-10B1-426F-9247-BB680E5FE0C8",
        "{67e55044-10b1-426f-9247-bb680e5fe0c8}",
        "URN:uuid:67e55044-10b1-426f-9247-bb680e5fe0c8",
    ] {
        assert!(validate_uuid(ok).is_ok(), "{}", ok);
    }
    for bad in [
        "67e55044-10b1-426f-9247-bb680e5fe0cg",
        "67e55044_10b1-426f-9247-bb680e5fe0c8",
        "urx:uuid:67e55044-10b1-426f-9247-bb680e5fe0c8",
        "",
    ] {
        assert!(validate_uuid(bad).is_err(), "{}", bad);
    }
}

#[test]
fn trimming_uses_unicode_white_space() {
    assert_eq!(validate_search_query("\u{3000}tea\u{2009}\n").ok().unwrap(), "tea");
}
