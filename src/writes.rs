use vstd::prelude::*;
use crate::decimal::{signed_decimal, signed_decimal_string};
use crate::error::AppError;
use crate::json::{json_quote, quote};
use crate::repository::{filter, filters_are, Filter, FilterOp};

verus! {

/// What a write does to the rows it selects.
#[derive(PartialEq, Eq, Structural, Clone, Copy)]
pub enum WriteKind {
    Insert,
    Update,
    Delete,
}

/// A write to `table`: an insert of `body`, or an update with `body` (or a
/// delete) of the rows that meet every filter. `body` is JSON text; the
/// stored row comes back in the answer.
pub struct WriteQuery {
    pub table: String,
    pub kind: WriteKind,
    pub filters: Vec<Filter>,
    pub body: Option<String>,
}

pub open spec fn write_is(
    q: WriteQuery,
    table: Seq<char>,
    kind: WriteKind,
    filters: Seq<(Seq<char>, FilterOp, Seq<char>)>,
    body: Option<Seq<char>>,
) -> bool {
    &&& q.table@ == table
    &&& q.kind == kind
    &&& filters_are(q.filters@, filters)
    &&& match body {
        Some(b) => q.body matches Some(x) && x@ == b,
        None => q.body is None,
    }
}

fn one_filter(column: &str, value: &str) -> (r: Vec<Filter>)
    ensures
        filters_are(r@, seq![(column@, FilterOp::Eq, value@)]),
{
    let mut fs: Vec<Filter> = Vec::new();
    fs.push(filter(column, FilterOp::Eq, value));
    fs
}

/// Inserts the row `body` (a serialized entity) into `table`.
pub fn insert_into(table: &str, body: String) -> (r: WriteQuery)
    ensures
        write_is(r, table@, WriteKind::Insert, seq![], Some(body@)),
{
    WriteQuery { table: String::from_str(table), kind: WriteKind::Insert, filters: Vec::new(), body: Some(body) }
}

/// Replaces the product `id` with `body`.
pub fn product_update(id: &str, body: String) -> (r: WriteQuery)
    ensures
        write_is(r, "products"@, WriteKind::Update, seq![("id"@, FilterOp::Eq, id@)], Some(body@)),
{
    WriteQuery { table: String::from_str("products"), kind: WriteKind::Update, filters: one_filter("id", id), body: Some(body) }
}

/// Marks the product `id` deleted; its row stays.
pub fn product_soft_delete(id: &str) -> (r: WriteQuery)
    ensures
        write_is(
            r,
            "products"@,
            WriteKind::Update,
            seq![("id"@, FilterOp::Eq, id@)],
            Some("{\"is_deleted\": true}"@),
        ),
{
    WriteQuery {
        table: String::from_str("products"),
        kind: WriteKind::Update,
        filters: one_filter("id", id),
        body: Some(String::from_str("{\"is_deleted\": true}")),
    }
}

/// The argument of the stored procedure that counts a click on product `id`.
pub fn click_procedure_body(id: i64) -> (r: String)
    ensures
        r@ == "{\"product_id\": "@ + signed_decimal(id as int) + "}"@,
{
    String::from_str("{\"product_id\": ").concat(signed_decimal_string(id).as_str()).concat("}")
}

/// The read-modify-write that counts a click when the stored procedure is
/// missing: the product's count (none read as 0) plus one. A count already
/// at the largest value is refused.
pub fn click_count_update(id: i64, current: Option<i32>) -> (r: Result<WriteQuery, AppError>)
    ensures
        current == Some(i32::MAX) <==> r is Err,
        r matches Err(e) ==> e is InternalServer,
        r matches Ok(q) ==> write_is(
            q,
            "products"@,
            WriteKind::Update,
            seq![("id"@, FilterOp::Eq, signed_decimal(id as int))],
            Some(
                "{\"click_count\": "@ + signed_decimal(
                    match current {
                        Some(c) => c as int + 1,
                        None => 1,
                    },
                ) + "}"@,
            ),
        ),
{
    let base: i32 = match current {
        Some(c) => c,
        None => 0,
    };
    if base == i32::MAX {
        return Err(AppError::internal("click count is at its largest value"));
    }
    let next = base + 1;
    let key = signed_decimal_string(id);
    let body = String::from_str("{\"click_count\": ").concat(signed_decimal_string(next as i64).as_str()).concat(
        "}",
    );
    Ok(WriteQuery { table: String::from_str("products"), kind: WriteKind::Update, filters: one_filter("id", key.as_str()), body: Some(body) })
}

/// Replaces the profile of `user_id` with `body`.
pub fn profile_update(user_id: &str, body: String) -> (r: WriteQuery)
    ensures
        write_is(r, "profiles"@, WriteKind::Update, seq![("user_id"@, FilterOp::Eq, user_id@)], Some(body@)),
{
    WriteQuery { table: String::from_str("profiles"), kind: WriteKind::Update, filters: one_filter("user_id", user_id), body: Some(body) }
}

/// Replaces the notification settings of `user_id` with `body`.
pub fn settings_update(user_id: &str, body: String) -> (r: WriteQuery)
    ensures
        write_is(
            r,
            "notification_settings"@,
            WriteKind::Update,
            seq![("user_id"@, FilterOp::Eq, user_id@)],
            Some(body@),
        ),
{
    WriteQuery {
        table: String::from_str("notification_settings"),
        kind: WriteKind::Update,
        filters: one_filter("user_id", user_id),
        body: Some(body),
    }
}

/// Marks the notification `id` read at `at` (an RFC 3339 time).
pub fn notification_read(id: &str, at: &str) -> (r: WriteQuery)
    ensures
        write_is(
            r,
            "notifications"@,
            WriteKind::Update,
            seq![("id"@, FilterOp::Eq, id@)],
            Some("{\"read_at\": "@ + json_quote(at@) + "}"@),
        ),
{
    let body = String::from_str("{\"read_at\": ").concat(quote(at).as_str()).concat("}");
    WriteQuery { table: String::from_str("notifications"), kind: WriteKind::Update, filters: one_filter("id", id), body: Some(body) }
}

/// What a user can follow.
#[derive(PartialEq, Eq, Structural, Clone, Copy)]
pub enum FollowKind {
    Product,
    Brand,
    Shop,
}

pub open spec fn follow_table(k: FollowKind) -> Seq<char> {
    match k {
        FollowKind::Product => "product_subscriptions"@,
        FollowKind::Brand => "brand_subscriptions"@,
        FollowKind::Shop => "shop_subscriptions"@,
    }
}

pub open spec fn follow_column(k: FollowKind) -> Seq<char> {
    match k {
        FollowKind::Product => "product_id"@,
        FollowKind::Brand => "brand_id"@,
        FollowKind::Shop => "shop_id"@,
    }
}

fn follow_names(k: FollowKind) -> (r: (&'static str, &'static str))
    ensures
        r.0@ == follow_table(k),
        r.1@ == follow_column(k),
{
    match k {
        FollowKind::Product => ("product_subscriptions", "product_id"),
        FollowKind::Brand => ("brand_subscriptions", "brand_id"),
        FollowKind::Shop => ("shop_subscriptions", "shop_id"),
    }
}

/// Stores the subscription row `body` of the given kind.
pub fn subscription_add(kind: FollowKind, body: String) -> (r: WriteQuery)
    ensures
        write_is(r, follow_table(kind), WriteKind::Insert, seq![], Some(body@)),
{
    let (table, _) = follow_names(kind);
    insert_into(table, body)
}

/// Removes `user_id`'s subscription to `target_id`.
pub fn subscription_remove(kind: FollowKind, user_id: &str, target_id: i64) -> (r: WriteQuery)
    ensures
        write_is(
            r,
            follow_table(kind),
            WriteKind::Delete,
            seq![
                ("user_id"@, FilterOp::Eq, user_id@),
                (follow_column(kind), FilterOp::Eq, signed_decimal(target_id as int)),
            ],
            None,
        ),
{
    let (table, column) = follow_names(kind);
    let key = signed_decimal_string(target_id);
    let mut fs: Vec<Filter> = Vec::new();
    fs.push(filter("user_id", FilterOp::Eq, user_id));
    fs.push(filter(column, FilterOp::Eq, key.as_str()));
    WriteQuery { table: String::from_str(table), kind: WriteKind::Delete, filters: fs, body: None }
}

} // verus!
