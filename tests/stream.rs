use duk::realtime::{
    change_event_from_parts, decode_frame, discount_updates_topic, event_kind, join_frame,
    subscription_change_topics, topic_ref, user_notifications_topic, ChangeEvent, EventKind, Topic,
};
use duk::subscription::{backoff_delay, Action, SocketState, SubscriptionManager};

fn topic(table: &str) -> Topic {
    Topic { table: table.to_string(), filter: None, events: "*".to_string() }
}

fn event(reference: &str, n: u32) -> ChangeEvent {
    ChangeEvent {
        kind: EventKind::Insert,
        topic: reference.to_string(),
        record: Some(format!("{{\"n\":{}}}", n)),
        old_record: None,
    }
}

fn filtered(table: &str, filter: &str) -> Topic {
    Topic { table: table.to_string(), filter: Some(filter.to_string()), events: "INSERT".to_string() }
}

fn record_of(e: &ChangeEvent) -> String {
    e.record.clone().unwrap()
}

#[test]
fn three_topics_on_one_socket_keep_their_own_order() {
    let mut m = SubscriptionManager::new(3);
    let (a, first) = m.subscribe(topic("shop_subscriptions"));
    assert!(matches!(first, Action::Connect));
    let (b, _) = m.subscribe(topic("brand_subscriptions"));
    let (c, _) = m.subscribe(topic("category_subscriptions"));
    let joins = m.on_connected();
    assert_eq!(joins.len(), 3);
    assert!(m.state == SocketState::Streaming);
    let refs: Vec<String> = m.topics.iter().map(|t| t.reference.clone()).collect();
    assert_eq!(refs, vec!["realtime:0", "realtime:1", "realtime:2"]);
    for n in 0..5u32 {
        for r in &refs {
            m.dispatch(&event(r, n));
        }
    }
    m.dispatch(&event("realtime:unrelated", 99));
    for (id, r) in [(a, &refs[0]), (b, &refs[1]), (c, &refs[2])] {
        let got = m.take_inbox(id).unwrap();
        assert_eq!(got.len(), 5);
        for (n, e) in got.iter().enumerate() {
            assert_eq!(&e.topic, r);
            assert_eq!(record_of(e), format!("{{\"n\":{}}}", n));
        }
        assert_eq!(m.take_inbox(id).unwrap().len(), 0);
    }
    assert!(m.take_inbox(12345).is_none());
}

#[test]
fn two_subscribers_of_one_topic_both_receive() {
    let mut m = SubscriptionManager::new(1);
    let (a, _) = m.subscribe(topic("notifications"));
    let _ = m.on_connected();
    let (b, act) = m.subscribe(topic("notifications"));
    assert!(matches!(act, Action::Nothing));
    assert_eq!(m.topics.len(), 1);
    m.dispatch(&event("realtime:0", 1));
    assert_eq!(m.take_inbox(a).unwrap().len(), 1);
    assert_eq!(m.take_inbox(b).unwrap().len(), 1);
}

#[test]
fn new_topic_on_a_streaming_socket_is_joined_at_once() {
    let mut m = SubscriptionManager::new(1);
    let _ = m.subscribe(topic("a"));
    let _ = m.on_connected();
    let (_, act) = m.subscribe(topic("discount_info"));
    match act {
        Action::Send(frames) => {
            assert_eq!(frames.len(), 1);
            assert!(frames[0].contains("\"table\":\"discount_info\""));
            assert!(frames[0].contains("\"topic\":\"realtime:1\""));
        },
        _ => panic!("expected a join frame"),
    }
}

#[test]
fn join_frame_layout() {
    let t = Topic {
        table: "notifications".to_string(),
        filter: Some("user_id=eq.u\"1".to_string()),
        events: "INSERT".to_string(),
    };
    assert_eq!(
        join_frame(&t, "realtime:notifications", 7),
        "{\"topic\":\"realtime:notifications\",\"event\":\"phx_join\",\"payload\":{\"config\":{\"postgres_changes\":[{\"event\":\"INSERT\",\"schema\":\"public\",\"table\":\"notifications\",\"filter\":\"user_id=eq.u\\\"1\"}]}},\"ref\":\"7\"}"
    );
    let frame: serde_json::Value = serde_json::from_str(&join_frame(&t, "realtime:notifications", 7)).unwrap();
    assert_eq!(frame["payload"]["config"]["postgres_changes"][0]["filter"], "user_id=eq.u\"1");
    assert_eq!(topic_ref(12), "realtime:12");
}

#[test]
fn reconnect_backs_off_then_gives_up() {
    let mut m = SubscriptionManager::new(2);
    let (a, _) = m.subscribe(topic("t"));
    let _ = m.on_connected();
    m.dispatch(&event("realtime:0", 1));
    assert!(matches!(m.on_disconnected(), Action::Reconnect(500)));
    assert!(matches!(m.on_disconnected(), Action::Reconnect(1000)));
    assert!(matches!(m.on_disconnected(), Action::SubscriptionLost));
    assert!(m.state == SocketState::Disconnected);
    assert_eq!(m.take_inbox(a).unwrap().len(), 1);
    let frames = m.on_connected();
    assert_eq!(frames.len(), 1);
    assert_eq!(m.failures, 0);
}

#[test]
fn backoff_doubles_up_to_the_cap() {
    assert_eq!(backoff_delay(0), 500);
    assert_eq!(backoff_delay(1), 1000);
    assert_eq!(backoff_delay(5), 16000);
    assert_eq!(backoff_delay(6), 30000);
    assert_eq!(backoff_delay(40), 30000);
}

#[test]
fn last_unsubscribe_closes_the_socket() {
    let mut m = SubscriptionManager::new(1);
    let (a, _) = m.subscribe(topic("x"));
    let (b, _) = m.subscribe(topic("y"));
    let _ = m.on_connected();
    assert!(matches!(m.unsubscribe(a), Action::Nothing));
    m.dispatch(&event("realtime:1", 3));
    assert_eq!(m.take_inbox(b).unwrap().len(), 1);
    assert!(matches!(m.unsubscribe(999), Action::Nothing));
    assert!(matches!(m.unsubscribe(b), Action::Close));
    assert!(m.state == SocketState::Disconnected);
    assert!(m.topics.is_empty());
    assert!(matches!(m.on_disconnected(), Action::Nothing));
}

#[test]
fn frames_decode_into_change_events() {
    let text = r#"{"event":"postgres_changes","topic":"realtime:discount_info","payload":{"eventType":"UPDATE","record":{"id":5}}}"#;
    let e = decode_frame(text).unwrap();
    assert!(matches!(e.kind, EventKind::Update));
    assert_eq!(e.topic, "realtime:discount_info");
    assert_eq!(e.record.unwrap(), "{\"id\":5}");
    assert!(decode_frame(r#"{"event":"phx_reply","topic":"t","payload":{}}"#).is_none());
    assert!(decode_frame(r#"{"event":"postgres_changes","topic":"t"}"#).is_none());
    assert!(decode_frame("garbage").is_none());
    let odd = decode_frame(r#"{"event":"postgres_changes","topic":"t","payload":{"eventType":"TRUNCATE"}}"#).unwrap();
    match odd.kind {
        EventKind::Other(w) => assert_eq!(w, "TRUNCATE"),
        _ => panic!("expected another kind"),
    }
    assert!(odd.record.is_none());
}

#[test]
fn event_parts() {
    assert!(matches!(event_kind("INSERT"), EventKind::Insert));
    assert!(matches!(event_kind("DELETE"), EventKind::Delete));
    let e = change_event_from_parts(
        Some("postgres_changes".to_string()),
        Some("realtime:t".to_string()),
        true,
        None,
        None,
        None,
    )
    .unwrap();
    assert!(matches!(e.kind, EventKind::Other(ref w) if w.is_empty()));
    assert!(change_event_from_parts(Some("postgres_changes".to_string()), None, true, None, None, None).is_none());
}

#[test]
fn same_table_with_another_filter_is_a_topic_of_its_own() {
    let mut m = SubscriptionManager::new(1);
    let (u1, _) = m.subscribe(filtered("notifications", "user_id=eq.u1"));
    let _ = m.on_connected();
    let (u2, act) = m.subscribe(filtered("notifications", "user_id=eq.u2"));
    match act {
        Action::Send(frames) => {
            assert!(frames[0].contains("\"filter\":\"user_id=eq.u2\""));
            assert!(frames[0].contains("\"topic\":\"realtime:1\""));
        },
        _ => panic!("expected a join frame for the second filter"),
    }
    assert_eq!(m.topics.len(), 2);
    let (u1_again, again) = m.subscribe(filtered("notifications", "user_id=eq.u1"));
    assert!(matches!(again, Action::Nothing));
    m.dispatch(&event("realtime:0", 1));
    m.dispatch(&event("realtime:1", 2));
    assert_eq!(record_of(&m.take_inbox(u1).unwrap()[0]), "{\"n\":1}");
    assert_eq!(m.take_inbox(u1_again).unwrap().len(), 1);
    let for_u2 = m.take_inbox(u2).unwrap();
    assert_eq!(for_u2.len(), 1);
    assert_eq!(record_of(&for_u2[0]), "{\"n\":2}");
}

#[test]
fn one_subscriber_over_three_topics_gets_arrival_order() {
    let mut m = SubscriptionManager::new(1);
    let tables = ["shop_subscriptions", "brand_subscriptions", "category_subscriptions"];
    let (id, _) = m.subscribe(filtered(tables[0], "user_id=eq.u1"));
    let _ = m.on_connected();
    for t in &tables[1..] {
        match m.attach(id, filtered(t, "user_id=eq.u1")) {
            Some(Action::Send(frames)) => assert_eq!(frames.len(), 1),
            _ => panic!("expected a join frame"),
        }
    }
    assert!(m.attach(999, topic("x")).is_none());
    let mut sent = Vec::new();
    for n in 0..4u32 {
        for k in [2usize, 0, 1] {
            let r = format!("realtime:{}", k);
            m.dispatch(&event(&r, n * 10 + k as u32));
            sent.push((r, n * 10 + k as u32));
        }
    }
    m.dispatch(&event("realtime:7", 99));
    let got = m.take_inbox(id).unwrap();
    assert_eq!(got.len(), sent.len());
    for (e, (r, n)) in got.iter().zip(sent.iter()) {
        assert_eq!(&e.topic, r);
        assert_eq!(record_of(e), format!("{{\"n\":{}}}", n));
    }
    let k: usize = got[0].topic["realtime:".len()..].parse().unwrap();
    assert_eq!(m.table_of(&got[0].topic).unwrap(), tables[k]);
    assert!(m.table_of("realtime:7").is_none());
}

#[test]
fn control_characters_are_escaped_as_serde_json_does() {
    let t = Topic {
        table: "t\\x".to_string(),
        filter: Some("a\tb\u{1}c\u{7f}".to_string()),
        events: "*".to_string(),
    };
    let frame = join_frame(&t, "realtime:0", 1);
    assert!(frame.contains("\"table\":\"t\\\\x\""));
    assert!(frame.contains("\"filter\":\"a\\tb\\u0001c\u{7f}\""));
}

#[test]
fn deletes_carry_the_removed_row() {
    let text = r#"{"event":"postgres_changes","topic":"realtime:3","payload":{"eventType":"DELETE","record":null,"old_record":{"id":8}}}"#;
    let e = decode_frame(text).unwrap();
    assert!(matches!(e.kind, EventKind::Delete));
    assert_eq!(e.old_record.as_deref(), Some("{\"id\":8}"));
    assert_eq!(e.record.as_deref(), Some("null"));
}

#[test]
fn feed_topics() {
    let n = user_notifications_topic("u1");
    assert_eq!(n.table, "notifications");
    assert_eq!(n.events, "INSERT");
    assert_eq!(n.filter.as_deref(), Some("user_id=eq.u1"));
    let d = discount_updates_topic();
    assert_eq!(d.table, "discount_info");
    assert!(d.filter.is_none());
    assert_eq!(d.events, "*");
    let subs = subscription_change_topics("u2");
    let tables: Vec<&str> = subs.iter().map(|t| t.table.as_str()).collect();
    assert_eq!(tables, vec!["shop_subscriptions", "brand_subscriptions", "category_subscriptions"]);
    assert!(subs.iter().all(|t| t.filter.as_deref() == Some("user_id=eq.u2") && t.events == "*"));
}

#[test]
fn a_run_of_frames_fans_out_per_topic() {
    let mut m = SubscriptionManager::new(1);
    let topics = subscription_change_topics("u1");
    let mut ids = Vec::new();
    for t in topics {
        let (id, _) = m.subscribe(t);
        ids.push(id);
    }
    let _ = m.on_connected();
    let mut run = Vec::new();
    for n in 0..6u32 {
        for k in [1usize, 2, 0] {
            run.push(event(&format!("realtime:{}", k), n * 3 + k as u32));
        }
    }
    m.dispatch_all(&run);
    for (k, id) in ids.iter().enumerate() {
        let got = m.take_inbox(*id).unwrap();
        let want: Vec<String> =
            run.iter().filter(|e| e.topic == format!("realtime:{}", k)).map(record_of).collect();
        assert_eq!(got.iter().map(record_of).collect::<Vec<_>>(), want);
        assert_eq!(got.len(), 6);
    }
}
