use duk::localize::{localization_order, localized_text};
use duk::auth::{extract_user_from_token, is_admin, is_authenticated};
use duk::cache::{
    cache_key_discount, cache_key_popular_products, cache_key_popular_shops, cache_key_product,
    cache_key_search, cache_key_shop, cache_key_user, cache_key_user_notifications,
};
use duk::credential::{CredentialTier, SupabaseConfig};
use duk::error::AppError;

fn config() -> SupabaseConfig {
    SupabaseConfig::new(
        "https://db.example.co".to_string(),
        "anon-key".to_string(),
        "service-secret".to_string(),
    )
}

#[test]
fn admin_channel_uses_the_server_secret() {
    let ch = config().channel_for(&CredentialTier::Admin).ok().unwrap();
    assert_eq!(ch.bearer, "service-secret");
    assert_eq!(ch.api_key, "service-secret");
    assert_eq!(ch.base_url, "https://db.example.co");
    assert_eq!(ch.authorization_header(), "Bearer service-secret");
}

#[test]
fn empty_token_is_refused() {
    assert!(matches!(
        config().channel_for(&CredentialTier::Authenticated(String::new())),
        Err(AppError::Authentication(_))
    ));
    assert!(matches!(config().authenticated_client(""), Err(AppError::Authentication(_))));
}

#[test]
fn user_channel_carries_the_token() {
    let ch = config().channel_for(&CredentialTier::Authenticated("tok".to_string())).ok().unwrap();
    assert_eq!(ch.api_key, "anon-key");
    assert_eq!(ch.bearer, "tok");
    let p = config().channel_for(&CredentialTier::Public).ok().unwrap();
    assert_eq!(p.bearer, "anon-key");
}

#[test]
fn realtime_endpoint_switches_scheme() {
    let ep = config().realtime_endpoint(&CredentialTier::Admin).ok().unwrap();
    assert_eq!(ep.socket_url, "wss://db.example.co/realtime/v1/websocket");
    assert_eq!(ep.api_key, "service-secret");
    let u = config().realtime_endpoint(&CredentialTier::Authenticated("t".to_string())).ok().unwrap();
    assert_eq!(u.api_key, "anon-key");
}

#[test]
fn tokens() {
    assert!(extract_user_from_token("").is_err());
    let u = extract_user_from_token("abc").ok().unwrap();
    assert_eq!(u.id, "user-uuid-from-jwt");
    assert!(u.role.is_none());
    assert!(is_authenticated(Some("abc")));
    assert!(!is_authenticated(Some("")));
    assert!(!is_authenticated(None));
    assert!(!is_admin(Some("abc")));
}

#[test]
fn cache_keys() {
    assert_eq!(cache_key_user("u1"), "user:u1");
    assert_eq!(cache_key_shop("s"), "shop:s");
    assert_eq!(cache_key_product("p"), "product:p");
    assert_eq!(cache_key_discount("d"), "discount:d");
    assert_eq!(cache_key_search("shoes", 2, 20), "search:shoes:2:20");
    assert_eq!(cache_key_popular_shops("KR", 10), "popular:shops:KR:10");
    assert_eq!(cache_key_popular_products("bags", 0), "popular:products:bags:0");
    assert_eq!(cache_key_user_notifications("u"), "notifications:u");
}

#[test]
fn error_codes_statuses_and_messages() {
    let all = vec![
        (AppError::Database("x".into()), 500, "DATABASE_ERROR", "Database error: x"),
        (AppError::authentication("x"), 401, "AUTHENTICATION_ERROR", "Authentication error: x"),
        (AppError::authorization("x"), 403, "AUTHORIZATION_ERROR", "Authorization error: x"),
        (AppError::validation("x"), 400, "VALIDATION_ERROR", "Validation error: x"),
        (AppError::not_found("Shop"), 404, "NOT_FOUND", "Not found: Shop not found"),
        (AppError::conflict("x"), 409, "CONFLICT", "Conflict: x"),
        (AppError::RateLimit, 429, "RATE_LIMIT_EXCEEDED", "Rate limit exceeded"),
        (AppError::ExternalService("x".into()), 502, "EXTERNAL_SERVICE_ERROR", "External service error: x"),
        (AppError::Configuration("x".into()), 500, "CONFIGURATION_ERROR", "Configuration error: x"),
        (AppError::internal("x"), 500, "INTERNAL_SERVER_ERROR", "Internal server error: x"),
    ];
    for (e, status, code, msg) in all {
        assert_eq!(e.status_code(), status);
        assert_eq!(e.error_code(), code);
        assert_eq!(e.message(), msg);
    }
}

#[test]
fn localization_falls_back_in_order() {
    assert_eq!(localization_order("ko", Some("ja")), vec!["ko", "ja", "en"]);
    assert_eq!(localization_order("en", None), vec!["en"]);
    assert_eq!(localization_order("zh", None), vec!["zh", "en"]);
    assert_eq!(localized_text(vec![None, Some("Hola".to_string()), Some("Hi".to_string())], "k"), "Hola");
    assert_eq!(localized_text(vec![None, None], "greeting.hello"), "greeting.hello");
    assert_eq!(localized_text(Vec::new(), "k"), "k");
}

#[test]
fn internal_details_stay_hidden() {
    assert_eq!(AppError::Database("relation missing".into()).public_message(), "Internal server error");
    assert_eq!(AppError::Configuration("x".into()).public_message(), "Internal server error");
    assert_eq!(AppError::validation("bad page").public_message(), "Validation error: bad page");
    assert_eq!(AppError::not_found("Shop").public_message(), "Not found: Shop not found");
}
