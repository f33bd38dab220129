use duk::error::AppError;
use duk::repository::{
    active_languages, language_by_code, profile_of, shop_translations, subscriptions_of, translation_of,
    FilterOp, TranslationKind,
};
use duk::writes::{
    click_count_update, click_procedure_body, insert_into, notification_read, product_soft_delete,
    product_update, profile_update, settings_update, subscription_add, subscription_remove, FollowKind,
    WriteKind,
};

#[test]
fn product_writes() {
    let c = insert_into("products", "{\"name\":\"x\"}".to_string());
    assert!(c.kind == WriteKind::Insert);
    assert!(c.filters.is_empty());
    assert_eq!(c.body.as_deref(), Some("{\"name\":\"x\"}"));
    let u = product_update("p1", "{}".to_string());
    assert!(u.kind == WriteKind::Update);
    assert_eq!(u.filters[0].column, "id");
    assert_eq!(u.filters[0].value, "p1");
    let d = product_soft_delete("p2");
    assert_eq!(d.table, "products");
    assert_eq!(d.body.as_deref(), Some("{\"is_deleted\": true}"));
}

#[test]
fn click_counting() {
    assert_eq!(click_procedure_body(42), "{\"product_id\": 42}");
    let first = click_count_update(7, None).ok().unwrap();
    assert_eq!(first.body.as_deref(), Some("{\"click_count\": 1}"));
    assert_eq!(first.filters[0].value, "7");
    let next = click_count_update(7, Some(41)).ok().unwrap();
    assert_eq!(next.body.as_deref(), Some("{\"click_count\": 42}"));
    assert!(matches!(click_count_update(7, Some(i32::MAX)), Err(AppError::InternalServer(_))));
}

#[test]
fn user_and_notification_writes() {
    let p = profile_update("u1", "{}".to_string());
    assert_eq!(p.table, "profiles");
    assert_eq!(p.filters[0].column, "user_id");
    let s = settings_update("u1", "{}".to_string());
    assert_eq!(s.table, "notification_settings");
    let r = notification_read("n1", "2024-01-01T00:00:00+00:00");
    assert_eq!(r.body.as_deref(), Some("{\"read_at\": \"2024-01-01T00:00:00+00:00\"}"));
    let a = subscription_add(FollowKind::Brand, "{}".to_string());
    assert_eq!(a.table, "brand_subscriptions");
    let rm = subscription_remove(FollowKind::Shop, "u1", 9);
    assert!(rm.kind == WriteKind::Delete);
    assert_eq!(rm.table, "shop_subscriptions");
    assert_eq!(rm.filters[1].column, "shop_id");
    assert_eq!(rm.filters[1].value, "9");
    assert!(rm.body.is_none());
}

#[test]
fn user_and_translation_reads() {
    assert_eq!(profile_of("u1").table, "profiles");
    let prod = subscriptions_of(FollowKind::Product, "u1");
    assert_eq!(prod.order.as_deref(), Some("created_at.desc"));
    assert!(subscriptions_of(FollowKind::Brand, "u1").order.is_none());
    let t = translation_of(TranslationKind::DiscountEvent, "e1", "ko");
    assert_eq!(t.table, "discount_event_translations");
    assert_eq!(t.filters[0].column, "event_id");
    assert_eq!(t.filters[1].value, "ko");
    assert_eq!(shop_translations("s1").filters[0].column, "shop_id");
    let langs = active_languages();
    assert!(langs.filters[0].op == FilterOp::Eq);
    assert_eq!(langs.order.as_deref(), Some("name.asc"));
    assert_eq!(language_by_code("ja").filters[0].value, "ja");
}
