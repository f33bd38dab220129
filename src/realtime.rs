use vstd::prelude::*;
use crate::decimal::{decimal, decimal_string, lemma_decimal_injective};
use crate::json::{json_quote, json_str_at, json_text_at, quote, read_str_at, read_text_at};
use crate::text::{copy_opt, str_eq};

verus! {

/// What happened to a row.
pub enum EventKind {
    Insert,
    Update,
    Delete,
    Other(String),
}

/// A decoded change on a watched table.
///
/// `topic` is the topic reference the change arrived on; `record` is the
/// JSON text of the row as it now stands and `old_record` that of the row as
/// it stood before (what a delete removed), when the frame carries them.
pub struct ChangeEvent {
    pub kind: EventKind,
    pub topic: String,
    pub record: Option<String>,
    pub old_record: Option<String>,
}

/// A subscription topic: a table, an optional row filter, and the kinds
/// of change wanted (`*` for every kind). The table and the filter
/// together identify the topic.
pub struct Topic {
    pub table: String,
    pub filter: Option<String>,
    pub events: String,
}

/// `k` is the kind named by the wire word `w`.
pub open spec fn kind_named(k: EventKind, w: Seq<char>) -> bool {
    if w == "INSERT"@ {
        k is Insert
    } else if w == "UPDATE"@ {
        k is Update
    } else if w == "DELETE"@ {
        k is Delete
    } else {
        k matches EventKind::Other(o) && o@ == w
    }
}

/// The reference of the `n`-th topic joined on a socket: `realtime:<n>`.
pub open spec fn topic_ref_of(n: nat) -> Seq<char> {
    "realtime:"@ + decimal(n)
}

/// Topics joined at different positions have different references.
pub proof fn lemma_topic_refs_distinct(a: nat, b: nat)
    requires
        a != b,
    ensures
        topic_ref_of(a) != topic_ref_of(b),
{
    if topic_ref_of(a) == topic_ref_of(b) {
        let p = "realtime:"@;
        assert(topic_ref_of(a).subrange(p.len() as int, topic_ref_of(a).len() as int) =~= decimal(a));
        assert(topic_ref_of(b).subrange(p.len() as int, topic_ref_of(b).len() as int) =~= decimal(b));
        lemma_decimal_injective(a, b);
    }
}

pub fn event_kind(word: &str) -> (r: EventKind)
    ensures
        kind_named(r, word@),
{
    if str_eq(word, "INSERT") {
        EventKind::Insert
    } else if str_eq(word, "UPDATE") {
        EventKind::Update
    } else if str_eq(word, "DELETE") {
        EventKind::Delete
    } else {
        EventKind::Other(String::from_str(word))
    }
}

impl EventKind {
    pub fn duplicate(&self) -> (r: EventKind)
        ensures
            r == *self,
    {
        match self {
            EventKind::Insert => EventKind::Insert,
            EventKind::Update => EventKind::Update,
            EventKind::Delete => EventKind::Delete,
            EventKind::Other(s) => EventKind::Other(s.clone()),
        }
    }
}

impl ChangeEvent {
    pub fn duplicate(&self) -> (r: ChangeEvent)
        ensures
            r == *self,
    {
        ChangeEvent {
            kind: self.kind.duplicate(),
            topic: self.topic.clone(),
            record: copy_opt(&self.record),
            old_record: copy_opt(&self.old_record),
        }
    }
}

/// The reference of the `n`-th topic joined on a socket.
pub fn topic_ref(n: u64) -> (r: String)
    ensures
        r@ == topic_ref_of(n as nat),
{
    String::from_str("realtime:").concat(decimal_string(n).as_str())
}

/// The row filter that selects one user's rows: `user_id=eq.<user_id>`.
pub open spec fn user_filter(user_id: Seq<char>) -> Seq<char> {
    "user_id=eq."@ + user_id
}

pub open spec fn topic_is(t: Topic, table: Seq<char>, filter: Option<Seq<char>>, events: Seq<char>) -> bool {
    &&& t.table@ == table
    &&& opt_view(t.filter) == filter
    &&& t.events@ == events
}

fn make_topic(table: &str, filter: Option<String>, events: &str) -> (r: Topic)
    ensures
        topic_is(r, table@, opt_view(filter), events@),
{
    Topic { table: String::from_str(table), filter, events: String::from_str(events) }
}

fn user_filter_text(user_id: &str) -> (r: String)
    ensures
        r@ == user_filter(user_id@),
{
    String::from_str("user_id=eq.").concat(user_id)
}

/// The feed of a user's new notifications: inserts into `notifications`
/// for that user.
pub fn user_notifications_topic(user_id: &str) -> (r: Topic)
    ensures
        topic_is(r, "notifications"@, Some(user_filter(user_id@)), "INSERT"@),
{
    make_topic("notifications", Some(user_filter_text(user_id)), "INSERT")
}

/// The feed of every change to discounts.
pub fn discount_updates_topic() -> (r: Topic)
    ensures
        topic_is(r, "discount_info"@, None, "*"@),
{
    make_topic("discount_info", None, "*")
}

/// The feeds of every change to a user's shop, brand and category
/// subscriptions, in that order.
pub fn subscription_change_topics(user_id: &str) -> (r: Vec<Topic>)
    ensures
        r@.len() == 3,
        topic_is(r@[0], "shop_subscriptions"@, Some(user_filter(user_id@)), "*"@),
        topic_is(r@[1], "brand_subscriptions"@, Some(user_filter(user_id@)), "*"@),
        topic_is(r@[2], "category_subscriptions"@, Some(user_filter(user_id@)), "*"@),
{
    let mut v: Vec<Topic> = Vec::new();
    v.push(make_topic("shop_subscriptions", Some(user_filter_text(user_id)), "*"));
    v.push(make_topic("brand_subscriptions", Some(user_filter_text(user_id)), "*"));
    v.push(make_topic("category_subscriptions", Some(user_filter_text(user_id)), "*"));
    v
}

/// The join frame built from its quoted parts: the topic reference, the
/// kinds of change, the table and the row filter, each already a JSON
/// string literal, and the reference number.
pub open spec fn join_frame_text_of(
    topic: Seq<char>,
    events: Seq<char>,
    table: Seq<char>,
    filter: Option<Seq<char>>,
    join_ref: nat,
) -> Seq<char> {
    "{\"topic\":"@ + topic
        + ",\"event\":\"phx_join\",\"payload\":{\"config\":{\"postgres_changes\":[{\"event\":"@
        + events + ",\"schema\":\"public\",\"table\":"@ + table + match filter {
        Some(f) => ",\"filter\":"@ + f,
        None => Seq::empty(),
    } + "}]}},\"ref\":\""@ + decimal(join_ref) + "\"}"@
}

/// The join frame for `topic` under the topic reference `reference`, sent
/// with reference number `join_ref`.
pub open spec fn join_frame_of(topic: Topic, reference: Seq<char>, join_ref: nat) -> Seq<char> {
    join_frame_text_of(
        json_quote(reference),
        json_quote(topic.events@),
        json_quote(topic.table@),
        match topic.filter {
            Some(f) => Some(json_quote(f@)),
            None => None,
        },
        join_ref,
    )
}

/// Lays out a join frame from its quoted parts.
pub fn join_frame_text(
    topic: &str,
    events: &str,
    table: &str,
    filter: Option<&str>,
    join_ref: u64,
) -> (r: String)
    ensures
        r@ == join_frame_text_of(
            topic@,
            events@,
            table@,
            match filter {
                Some(f) => Some(f@),
                None => None,
            },
            join_ref as nat,
        ),
{
    let mut out = String::from_str("{\"topic\":");
    out.append(topic);
    out.append(",\"event\":\"phx_join\",\"payload\":{\"config\":{\"postgres_changes\":[{\"event\":");
    out.append(events);
    out.append(",\"schema\":\"public\",\"table\":");
    out.append(table);
    match filter {
        Some(f) => {
            out.append(",\"filter\":");
            out.append(f);
        },
        None => {},
    }
    out.append("}]}},\"ref\":\"");
    out.append(decimal_string(join_ref).as_str());
    out.append("\"}");
    proof {
        assert(out@ =~= join_frame_text_of(
            topic@,
            events@,
            table@,
            match filter {
                Some(f) => Some(f@),
                None => None,
            },
            join_ref as nat,
        ));
    }
    out
}

/// Writes the frame that joins `topic` on a change-stream socket.
pub fn join_frame(topic: &Topic, reference: &str, join_ref: u64) -> (r: String)
    ensures
        r@ == join_frame_of(*topic, reference@, join_ref as nat),
{
    let quoted_filter = match &topic.filter {
        Some(f) => Some(quote(f.as_str())),
        None => None,
    };
    let filter_ref = match &quoted_filter {
        Some(q) => Some(q.as_str()),
        None => None,
    };
    join_frame_text(
        quote(reference).as_str(),
        quote(topic.events.as_str()).as_str(),
        quote(topic.table.as_str()).as_str(),
        filter_ref,
        join_ref,
    )
}

/// The change event that a frame's parts describe: the frame's `event`, its
/// `topic`, whether it has a payload, the payload's `eventType` and the JSON
/// text of the payload's `record`. Only a `postgres_changes` frame with a
/// topic and a payload is a change; a missing `eventType` reads as an
/// unnamed kind.
pub open spec fn event_from_parts(
    r: Option<ChangeEvent>,
    event: Option<Seq<char>>,
    topic: Option<Seq<char>>,
    has_payload: bool,
    kind: Option<Seq<char>>,
    record: Option<Seq<char>>,
    old_record: Option<Seq<char>>,
) -> bool {
    if event == Some("postgres_changes"@) && topic is Some && has_payload {
        r matches Some(e) && {
            &&& Some(e.topic@) == topic
            &&& kind_named(e.kind, kind.unwrap_or(Seq::empty()))
            &&& opt_view(e.record) == record
            &&& opt_view(e.old_record) == old_record
        }
    } else {
        r is None
    }
}

pub open spec fn opt_view(s: Option<String>) -> Option<Seq<char>> {
    match s {
        Some(v) => Some(v@),
        None => None,
    }
}

/// Builds the change event from the parts of a decoded frame.
pub fn change_event_from_parts(
    event: Option<String>,
    topic: Option<String>,
    has_payload: bool,
    kind: Option<String>,
    record: Option<String>,
    old_record: Option<String>,
) -> (r: Option<ChangeEvent>)
    ensures
        event_from_parts(
            r,
            opt_view(event),
            opt_view(topic),
            has_payload,
            opt_view(kind),
            opt_view(record),
            opt_view(old_record),
        ),
{
    let is_change = match &event {
        Some(e) => str_eq(e.as_str(), "postgres_changes"),
        None => false,
    };
    if !is_change || !has_payload {
        return None;
    }
    match topic {
        Some(t) => {
            let k = match &kind {
                Some(w) => event_kind(w.as_str()),
                None => {
                    proof {
                        reveal_strlit("");
                        assert(""@ =~= Seq::<char>::empty());
                    }
                    event_kind("")
                },
            };
            assert(kind_named(k, opt_view(kind).unwrap_or(Seq::empty())));
            Some(ChangeEvent { kind: k, topic: t, record, old_record })
        },
        None => None,
    }
}

/// Decodes a text frame of the change stream.
pub fn decode_frame(text: &str) -> (r: Option<ChangeEvent>)
    ensures
        event_from_parts(
            r,
            json_str_at(text@, "/event"@),
            json_str_at(text@, "/topic"@),
            json_text_at(text@, "/payload"@) is Some,
            json_str_at(text@, "/payload/eventType"@),
            json_text_at(text@, "/payload/record"@),
            json_text_at(text@, "/payload/old_record"@),
        ),
{
    let event = read_str_at(text, "/event");
    let topic = read_str_at(text, "/topic");
    let payload = read_text_at(text, "/payload");
    let kind = read_str_at(text, "/payload/eventType");
    let record = read_text_at(text, "/payload/record");
    let old_record = read_text_at(text, "/payload/old_record");
    change_event_from_parts(event, topic, payload.is_some(), kind, record, old_record)
}

} // verus!
