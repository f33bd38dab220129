use duk::error::AppError;
use duk::notify::{
    can_receive_notification, default_settings, gate, setting_word_for_type,
    notification_from_event, notification_from_parts, screen_notification, setting_category,
    toggle_notification_type, Category, Notification, NotificationSettings, SettingsStore,
};
use duk::realtime::{ChangeEvent, EventKind};

fn settings(push: bool, discount: bool) -> NotificationSettings {
    let mut s = default_settings("u1", 100);
    s.push_enabled = push;
    s.discount_notifications = discount;
    s
}

fn discount_insert() -> ChangeEvent {
    ChangeEvent {
        kind: EventKind::Insert,
        topic: "realtime:notifications".to_string(),
        record: Some(
            r#"{"id":"n1","user_id":"u1","type":"discount_update","target_type":"discount","target_id":"d9","read_at":null,"created_at":"2024-01-01T00:00:00Z"}"#
                .to_string(),
        ),
        old_record: None,
    }
}

#[test]
fn discount_event_filtered_when_category_off() {
    let cand = notification_from_event(&discount_insert()).unwrap();
    assert!(screen_notification(&settings(true, false), cand).is_none());
}

#[test]
fn discount_event_admitted_when_category_on() {
    let cand = notification_from_event(&discount_insert()).unwrap();
    let n = screen_notification(&settings(true, true), cand).unwrap();
    assert_eq!(n.read_at, None);
    assert_eq!(n.id, "n1");
    assert_eq!(n.user_id, "u1");
    assert_eq!(n.notification_type, "discount_update");
    assert_eq!(n.target_id.as_deref(), Some("d9"));
    assert_eq!(n.actor_id, None);
    assert_eq!(n.created_at, 1704067200);
}

#[test]
fn master_switch_off_filters_everything() {
    for t in ["discount", "shop", "brand", "category"] {
        assert!(!can_receive_notification(&settings(false, true), t));
        assert!(can_receive_notification(&settings(true, true), t));
    }
    assert!(!can_receive_notification(&settings(true, false), "discount"));
    for t in ["push", "unknown", "discount_update", "shop_subscription"] {
        assert!(!can_receive_notification(&settings(true, true), t));
    }
    let shop = Notification {
        id: "n3".into(),
        user_id: "u1".into(),
        actor_id: None,
        notification_type: "shop_subscription".into(),
        target_type: None,
        target_id: None,
        read_at: None,
        created_at: 0,
    };
    assert!(screen_notification(&settings(true, true), shop).is_some());
}

#[test]
fn rows_are_taken_as_stored() {
    let mut e = discount_insert();
    e.kind = EventKind::Update;
    e.record = Some(
        r#"{"id":"n2","user_id":"u1","type":"shop","read_at":"2024-01-02T00:00:00+09:00","created_at":"2024-01-01T00:00:00Z"}"#
            .to_string(),
    );
    let n = notification_from_event(&e).unwrap();
    assert_eq!(n.read_at, Some(1704121200));
    assert_eq!(n.created_at, 1704067200);
    let mut bad_time = discount_insert();
    bad_time.record = Some(r#"{"id":"n","user_id":"u","type":"shop","created_at":"yesterday"}"#.to_string());
    assert!(notification_from_event(&bad_time).is_none());
    let mut bad_read = discount_insert();
    bad_read.record = Some(
        r#"{"id":"n","user_id":"u","type":"shop","created_at":"2024-01-01T00:00:00Z","read_at":5}"#.to_string(),
    );
    assert!(notification_from_event(&bad_read).is_none());
    let bare = ChangeEvent {
        kind: EventKind::Insert,
        topic: "t".into(),
        record: Some("{\"id\":\"x\"}".into()),
        old_record: None,
    };
    assert!(notification_from_event(&bare).is_none());
    assert!(notification_from_parts(Some("a".into()), Some("b".into()), None, None, None, None, Some(0), Some(None)).is_none());
    assert!(notification_from_parts(Some("a".into()), Some("b".into()), Some("c".into()), None, None, None, None, Some(None)).is_none());
}

#[test]
fn two_lookups_create_one_default_record() {
    let mut store = SettingsStore::new();
    let (first, created_first) = store.get_or_create("u7", 10);
    let (second, created_second) = store.get_or_create("u7", 20);
    assert!(created_first);
    assert!(!created_second);
    assert_eq!(store.records.len(), 1);
    assert_eq!(second.created_at, 10);
    assert!(first.push_enabled && first.discount_notifications && first.shop_notifications);
    assert!(first.brand_notifications && first.category_notifications);
}

#[test]
fn gate_uses_stored_settings() {
    let mut store = SettingsStore::new();
    let mut s = default_settings("u1", 1);
    s.discount_notifications = false;
    let stored = store.put(s, 1);
    let (adopted, write_default) = store.adopt("u1", None, 50);
    assert!(!write_default);
    assert_eq!(adopted.updated_at, 1);
    assert!(!stored.discount_notifications);
    assert_eq!(stored.updated_at, 1);
    let cand = notification_from_event(&discount_insert()).unwrap();
    assert!(gate(&mut store, cand, 3).is_none());
    assert_eq!(store.records.len(), 1);
    let other = Notification {
        id: "n2".into(),
        user_id: "u2".into(),
        actor_id: None,
        notification_type: "shop_subscription".into(),
        target_type: None,
        target_id: None,
        read_at: Some(5),
        created_at: 4,
    };
    let n = gate(&mut store, other, 3).unwrap();
    assert_eq!(n.read_at, None);
    assert_eq!(store.records.len(), 2);
}

#[test]
fn toggles() {
    let mut s = default_settings("u1", 0);
    toggle_notification_type(&mut s, "brand", false, 9).ok().unwrap();
    assert!(!s.brand_notifications);
    assert!(s.shop_notifications);
    assert_eq!(s.updated_at, 9);
    match toggle_notification_type(&mut s, "email", true, 10) {
        Err(AppError::Validation(m)) => assert_eq!(m, "Invalid notification type"),
        _ => panic!("expected a validation error"),
    }
    assert_eq!(s.updated_at, 9);
    assert!(setting_category("push") == Some(Category::Push));
    assert_eq!(setting_word_for_type("category_subscription"), "category");
    assert_eq!(setting_word_for_type("push"), "push");
}

#[test]
fn reading_sets_only_read_at() {
    let mut n = notification_from_event(&discount_insert()).unwrap();
    n.mark_read(12);
    assert_eq!(n.read_at, Some(12));
    assert_eq!(n.created_at, 1704067200);
    assert_eq!(n.id, "n1");
}

#[test]
fn store_toggle_is_a_single_field_update() {
    let mut store = SettingsStore::new();
    let s = store.toggle("u3", "shop", false, 5).ok().unwrap();
    assert!(!s.shop_notifications);
    assert!(s.push_enabled && s.discount_notifications && s.brand_notifications);
    assert_eq!(store.records.len(), 1);
    let again = store.toggle("u3", "push", false, 6).ok().unwrap();
    assert!(!again.push_enabled);
    assert!(!again.shop_notifications);
    assert_eq!(again.updated_at, 6);
    assert_eq!(store.records.len(), 1);
    match store.toggle("u4", "email", true, 7) {
        Err(AppError::Validation(m)) => assert_eq!(m, "Invalid notification type"),
        _ => panic!("expected a validation error"),
    }
    assert_eq!(store.records.len(), 1);
}

#[test]
fn adopting_settings() {
    let mut store = SettingsStore::new();
    let mut remote = default_settings("u5", 3);
    remote.brand_notifications = false;
    let (a, write) = store.adopt("u5", Some(remote), 9);
    assert!(!write);
    assert!(!a.brand_notifications);
    assert_eq!(a.updated_at, 3);
    let (b, write_b) = store.adopt("u6", None, 9);
    assert!(write_b);
    assert!(b.push_enabled && b.brand_notifications);
    assert_eq!(b.created_at, 9);
    assert_eq!(store.records.len(), 2);
}

#[test]
fn toggle_keeps_creation_time() {
    let mut s = default_settings("u1", 4);
    toggle_notification_type(&mut s, "shop", false, 11).ok().unwrap();
    assert_eq!(s.created_at, 4);
    let mut store = SettingsStore::new();
    let fresh = store.toggle("u9", "brand", false, 20).ok().unwrap();
    assert_eq!(fresh.created_at, 20);
    let again = store.toggle("u9", "shop", false, 30).ok().unwrap();
    assert_eq!(again.created_at, 20);
}
