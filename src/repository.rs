use vstd::prelude::*;
use crate::decimal::{decimal, decimal_string, signed_decimal, signed_decimal_string};
use crate::error::AppError;
use crate::json::{json_u64_at, read_u64_at};
use crate::writes::{follow_column, follow_table, FollowKind};
use crate::pagination::{
    assemble, ceil_div, offset_of, paginate, valid_page_request, Pagenation, PagenationResult,
};

verus! {

/// How a filter compares a column with its value.
#[derive(PartialEq, Eq, Structural, Clone, Copy)]
pub enum FilterOp {
    Eq,
    Gte,
    /// The column is null; the value is not used.
    IsNull,
}

/// One condition of a query: `column <op> value`.
pub struct Filter {
    pub column: String,
    pub op: FilterOp,
    pub value: String,
}

/// A paginated read: the rows of `table` that meet every filter, ordered by
/// `order`, from row `offset` on, `limit` of them. The row count is taken
/// with the very same filters.
pub struct PageQuery {
    pub table: String,
    pub filters: Vec<Filter>,
    pub order: String,
    pub page: u32,
    pub limit: u32,
    pub offset: u64,
}

pub open spec fn filter_view(f: Filter) -> (Seq<char>, FilterOp, Seq<char>) {
    (f.column@, f.op, f.value@)
}

/// The filters of `fs` are, in order, those of `want`.
pub open spec fn filters_are(fs: Seq<Filter>, want: Seq<(Seq<char>, FilterOp, Seq<char>)>) -> bool {
    &&& fs.len() == want.len()
    &&& forall|i: int| 0 <= i < fs.len() ==> #[trigger] filter_view(fs[i]) == want[i]
}

impl PageQuery {
    /// The query's page stands inside the engine's limits and its offset
    /// matches its page.
    pub open spec fn wf(&self) -> bool {
        &&& valid_page_request(self.page as int, self.limit as int)
        &&& self.offset == offset_of(self.page as int, self.limit as int)
    }

    /// The last row index of the data fetch, inclusive.
    pub fn range_end(&self) -> (r: u64)
        requires
            self.wf(),
        ensures
            r == self.offset + self.limit - 1,
    {
        proof {
            assert(self.offset <= (u32::MAX as int - 1) * 100) by (nonlinear_arith)
                requires
                    self.offset == (self.page - 1) * self.limit,
                    1 <= self.page <= u32::MAX,
                    1 <= self.limit <= 100,
            ;
        }
        self.offset + self.limit as u64 - 1
    }
}

pub(crate) fn filter(column: &str, op: FilterOp, value: &str) -> (r: Filter)
    ensures
        filter_view(r) == (column@, op, value@),
{
    Filter { column: String::from_str(column), op, value: String::from_str(value) }
}

/// The plan of a paginated read of `table`.
pub fn page_query(table: &str, filters: Vec<Filter>, order: &str, pagination: &Pagenation) -> (r:
    Result<PageQuery, AppError>)
    ensures
        valid_page_request(pagination.page as int, pagination.limit as int) <==> r is Ok,
        r matches Ok(q) ==> {
            &&& q.wf()
            &&& q.table@ == table@
            &&& q.filters@ == filters@
            &&& q.order@ == order@
            &&& q.page == pagination.page
            &&& q.limit == pagination.limit
        },
        r matches Err(e) ==> e is Validation,
{
    match paginate(pagination.page, pagination.limit) {
        Ok((offset, limit)) => Ok(
            PageQuery {
                table: String::from_str(table),
                filters,
                order: String::from_str(order),
                page: pagination.page,
                limit,
                offset,
            },
        ),
        Err(e) => Err(e),
    }
}

/// The shape that every family's plan has: table, filters and order.
pub open spec fn plan_is(
    r: Result<PageQuery, AppError>,
    pagination: Pagenation,
    table: Seq<char>,
    filters: Seq<(Seq<char>, FilterOp, Seq<char>)>,
    order: Seq<char>,
) -> bool {
    &&& valid_page_request(pagination.page as int, pagination.limit as int) <==> r is Ok
    &&& r matches Ok(q) ==> {
        &&& q.wf()
        &&& q.table@ == table
        &&& filters_are(q.filters@, filters)
        &&& q.order@ == order
        &&& q.page == pagination.page
        &&& q.limit == pagination.limit
    }
    &&& r matches Err(e) ==> e is Validation
}

fn live_products(extra: Option<(&str, &str)>) -> (r: Vec<Filter>)
    ensures
        extra matches Some((c, v)) ==> filters_are(
            r@,
            seq![(c@, FilterOp::Eq, v@), ("is_deleted"@, FilterOp::Eq, "false"@)],
        ),
        extra is None ==> filters_are(r@, seq![("is_deleted"@, FilterOp::Eq, "false"@)]),
{
    let mut fs: Vec<Filter> = Vec::new();
    match extra {
        Some((c, v)) => fs.push(filter(c, FilterOp::Eq, v)),
        None => {},
    }
    fs.push(filter("is_deleted", FilterOp::Eq, "false"));
    fs
}

/// Live products, newest first.
pub fn products_page(pagination: &Pagenation) -> (r: Result<PageQuery, AppError>)
    ensures
        plan_is(
            r,
            *pagination,
            "products"@,
            seq![("is_deleted"@, FilterOp::Eq, "false"@)],
            "created_at.desc"@,
        ),
{
    page_query("products", live_products(None), "created_at.desc", pagination)
}

/// Live products for a country. Shipping regions are not modelled by the
/// data service yet, so every live product is listed, newest first.
pub fn products_by_country_page(country: &str, pagination: &Pagenation) -> (r: Result<
    PageQuery,
    AppError,
>)
    ensures
        plan_is(
            r,
            *pagination,
            "products"@,
            seq![("is_deleted"@, FilterOp::Eq, "false"@)],
            "created_at.desc"@,
        ),
{
    products_page(pagination)
}

/// Live products, most clicked first.
pub fn popular_products_page(pagination: &Pagenation) -> (r: Result<PageQuery, AppError>)
    ensures
        plan_is(
            r,
            *pagination,
            "products"@,
            seq![("is_deleted"@, FilterOp::Eq, "false"@)],
            "click_count.desc"@,
        ),
{
    page_query("products", live_products(None), "click_count.desc", pagination)
}

/// Live products of one shop, newest first.
pub fn products_by_shop_page(shop_id: &str, pagination: &Pagenation) -> (r: Result<
    PageQuery,
    AppError,
>)
    ensures
        plan_is(
            r,
            *pagination,
            "products"@,
            seq![("shop_id"@, FilterOp::Eq, shop_id@), ("is_deleted"@, FilterOp::Eq, "false"@)],
            "created_at.desc"@,
        ),
{
    page_query("products", live_products(Some(("shop_id", shop_id))), "created_at.desc", pagination)
}

/// Live products of one brand, newest first.
pub fn products_by_brand_page(brand_id: &str, pagination: &Pagenation) -> (r: Result<
    PageQuery,
    AppError,
>)
    ensures
        plan_is(
            r,
            *pagination,
            "products"@,
            seq![("brand_id"@, FilterOp::Eq, brand_id@), ("is_deleted"@, FilterOp::Eq, "false"@)],
            "created_at.desc"@,
        ),
{
    page_query(
        "products",
        live_products(Some(("brand_id", brand_id))),
        "created_at.desc",
        pagination,
    )
}

/// Live products of one category, newest first.
pub fn products_by_category_page(category_id: &str, pagination: &Pagenation) -> (r: Result<
    PageQuery,
    AppError,
>)
    ensures
        plan_is(
            r,
            *pagination,
            "products"@,
            seq![
                ("category_id"@, FilterOp::Eq, category_id@),
                ("is_deleted"@, FilterOp::Eq, "false"@),
            ],
            "created_at.desc"@,
        ),
{
    page_query(
        "products",
        live_products(Some(("category_id", category_id))),
        "created_at.desc",
        pagination,
    )
}

/// All rows of `table`, newest first.
fn newest_first(table: &str, pagination: &Pagenation) -> (r: Result<PageQuery, AppError>)
    ensures
        plan_is(r, *pagination, table@, seq![], "created_at.desc"@),
{
    page_query(table, Vec::new(), "created_at.desc", pagination)
}

/// Rows of `table` that belong to one user, newest first.
fn of_user(table: &str, user_id: &str, pagination: &Pagenation) -> (r: Result<PageQuery, AppError>)
    ensures
        plan_is(
            r,
            *pagination,
            table@,
            seq![("user_id"@, FilterOp::Eq, user_id@)],
            "created_at.desc"@,
        ),
{
    let mut fs: Vec<Filter> = Vec::new();
    fs.push(filter("user_id", FilterOp::Eq, user_id));
    page_query(table, fs, "created_at.desc", pagination)
}

/// Shops, newest first.
pub fn shops_page(pagination: &Pagenation) -> (r: Result<PageQuery, AppError>)
    ensures
        plan_is(r, *pagination, "shops"@, seq![], "created_at.desc"@),
{
    newest_first("shops", pagination)
}

/// Brands, newest first.
pub fn brands_page(pagination: &Pagenation) -> (r: Result<PageQuery, AppError>)
    ensures
        plan_is(r, *pagination, "brands"@, seq![], "created_at.desc"@),
{
    newest_first("brands", pagination)
}

/// Discounts, newest first.
pub fn discounts_page(pagination: &Pagenation) -> (r: Result<PageQuery, AppError>)
    ensures
        plan_is(r, *pagination, "discount_infos"@, seq![], "created_at.desc"@),
{
    newest_first("discount_infos", pagination)
}

/// API metrics, newest first.
pub fn api_metrics_page(pagination: &Pagenation) -> (r: Result<PageQuery, AppError>)
    ensures
        plan_is(r, *pagination, "api_metrics"@, seq![], "created_at.desc"@),
{
    newest_first("api_metrics", pagination)
}

/// API metrics of failed calls (status 400 and above), newest first.
pub fn error_metrics_page(pagination: &Pagenation) -> (r: Result<PageQuery, AppError>)
    ensures
        plan_is(
            r,
            *pagination,
            "api_metrics"@,
            seq![("status_code"@, FilterOp::Gte, "400"@)],
            "created_at.desc"@,
        ),
{
    let mut fs: Vec<Filter> = Vec::new();
    fs.push(filter("status_code", FilterOp::Gte, "400"));
    page_query("api_metrics", fs, "created_at.desc", pagination)
}

/// A user's notifications, newest first.
pub fn notifications_page(user_id: &str, pagination: &Pagenation) -> (r: Result<
    PageQuery,
    AppError,
>)
    ensures
        plan_is(
            r,
            *pagination,
            "notifications"@,
            seq![("user_id"@, FilterOp::Eq, user_id@)],
            "created_at.desc"@,
        ),
{
    of_user("notifications", user_id, pagination)
}

/// A user's notification log, newest first.
pub fn notification_logs_page(user_id: &str, pagination: &Pagenation) -> (r: Result<
    PageQuery,
    AppError,
>)
    ensures
        plan_is(
            r,
            *pagination,
            "notification_logs"@,
            seq![("user_id"@, FilterOp::Eq, user_id@)],
            "created_at.desc"@,
        ),
{
    of_user("notification_logs", user_id, pagination)
}

/// An unpaginated read: the rows of `table` that meet every filter, in
/// `order` when one is given.
pub struct RowsQuery {
    pub table: String,
    pub filters: Vec<Filter>,
    pub order: Option<String>,
}

pub open spec fn list_is(
    q: RowsQuery,
    table: Seq<char>,
    filters: Seq<(Seq<char>, FilterOp, Seq<char>)>,
    order: Option<Seq<char>>,
) -> bool {
    &&& q.table@ == table
    &&& filters_are(q.filters@, filters)
    &&& match order {
        Some(o) => q.order matches Some(x) && x@ == o,
        None => q.order is None,
    }
}

/// The row of `table` whose `id` is `id`.
pub fn row_by_id(table: &str, id: i64) -> (r: RowsQuery)
    ensures
        list_is(r, table@, seq![("id"@, FilterOp::Eq, signed_decimal(id as int))], None),
{
    let key = signed_decimal_string(id);
    let mut fs: Vec<Filter> = Vec::new();
    fs.push(filter("id", FilterOp::Eq, key.as_str()));
    RowsQuery { table: String::from_str(table), filters: fs, order: None }
}

/// The categories under `parent_id`, or the top-level ones (no parent), by
/// name.
pub fn categories_by_parent(parent_id: Option<i64>) -> (r: RowsQuery)
    ensures
        parent_id matches Some(p) ==> list_is(
            r,
            "categories"@,
            seq![("parent_id"@, FilterOp::Eq, signed_decimal(p as int))],
            Some("name.asc"@),
        ),
        parent_id is None ==> list_is(
            r,
            "categories"@,
            seq![("parent_id"@, FilterOp::IsNull, Seq::empty())],
            Some("name.asc"@),
        ),
{
    let mut fs: Vec<Filter> = Vec::new();
    match parent_id {
        Some(p) => {
            let key = signed_decimal_string(p);
            fs.push(filter("parent_id", FilterOp::Eq, key.as_str()));
        },
        None => {
            fs.push(Filter { column: String::from_str("parent_id"), op: FilterOp::IsNull, value: String::new() });
        },
    }
    RowsQuery { table: String::from_str("categories"), filters: fs, order: Some(String::from_str("name.asc")) }
}

/// The notification settings record of a user.
pub fn settings_of_user(user_id: &str) -> (r: RowsQuery)
    ensures
        list_is(r, "notification_settings"@, seq![("user_id"@, FilterOp::Eq, user_id@)], None),
{
    let mut fs: Vec<Filter> = Vec::new();
    fs.push(filter("user_id", FilterOp::Eq, user_id));
    RowsQuery { table: String::from_str("notification_settings"), filters: fs, order: None }
}

/// The profile of a user.
pub fn profile_of(user_id: &str) -> (r: RowsQuery)
    ensures
        list_is(r, "profiles"@, seq![("user_id"@, FilterOp::Eq, user_id@)], None),
{
    let mut fs: Vec<Filter> = Vec::new();
    fs.push(filter("user_id", FilterOp::Eq, user_id));
    RowsQuery { table: String::from_str("profiles"), filters: fs, order: None }
}

/// A user's subscriptions of one kind; product subscriptions come newest
/// first.
pub fn subscriptions_of(kind: FollowKind, user_id: &str) -> (r: RowsQuery)
    ensures
        list_is(
            r,
            follow_table(kind),
            seq![("user_id"@, FilterOp::Eq, user_id@)],
            if kind == FollowKind::Product {
                Some("created_at.desc"@)
            } else {
                None
            },
        ),
{
    let mut fs: Vec<Filter> = Vec::new();
    fs.push(filter("user_id", FilterOp::Eq, user_id));
    match kind {
        FollowKind::Product => RowsQuery {
            table: String::from_str("product_subscriptions"),
            filters: fs,
            order: Some(String::from_str("created_at.desc")),
        },
        FollowKind::Brand => RowsQuery { table: String::from_str("brand_subscriptions"), filters: fs, order: None },
        FollowKind::Shop => RowsQuery { table: String::from_str("shop_subscriptions"), filters: fs, order: None },
    }
}

/// What a translation is of.
#[derive(PartialEq, Eq, Structural, Clone, Copy)]
pub enum TranslationKind {
    Shop,
    Brand,
    Category,
    Product,
    DiscountEvent,
    DiscountInfo,
    Notification,
}

pub open spec fn translation_table(k: TranslationKind) -> Seq<char> {
    match k {
        TranslationKind::Shop => "shop_translations"@,
        TranslationKind::Brand => "brand_translations"@,
        TranslationKind::Category => "category_translations"@,
        TranslationKind::Product => "product_translations"@,
        TranslationKind::DiscountEvent => "discount_event_translations"@,
        TranslationKind::DiscountInfo => "discount_info_translations"@,
        TranslationKind::Notification => "notification_translations"@,
    }
}

pub open spec fn translation_column(k: TranslationKind) -> Seq<char> {
    match k {
        TranslationKind::Shop => "shop_id"@,
        TranslationKind::Brand => "brand_id"@,
        TranslationKind::Category => "category_id"@,
        TranslationKind::Product => "product_id"@,
        TranslationKind::DiscountEvent => "event_id"@,
        TranslationKind::DiscountInfo => "discount_info_id"@,
        TranslationKind::Notification => "notification_id"@,
    }
}

fn translation_names(k: TranslationKind) -> (r: (&'static str, &'static str))
    ensures
        r.0@ == translation_table(k),
        r.1@ == translation_column(k),
{
    match k {
        TranslationKind::Shop => ("shop_translations", "shop_id"),
        TranslationKind::Brand => ("brand_translations", "brand_id"),
        TranslationKind::Category => ("category_translations", "category_id"),
        TranslationKind::Product => ("product_translations", "product_id"),
        TranslationKind::DiscountEvent => ("discount_event_translations", "event_id"),
        TranslationKind::DiscountInfo => ("discount_info_translations", "discount_info_id"),
        TranslationKind::Notification => ("notification_translations", "notification_id"),
    }
}

/// The translation of one item into `locale`.
pub fn translation_of(kind: TranslationKind, target_id: &str, locale: &str) -> (r: RowsQuery)
    ensures
        list_is(
            r,
            translation_table(kind),
            seq![(translation_column(kind), FilterOp::Eq, target_id@), ("locale"@, FilterOp::Eq, locale@)],
            None,
        ),
{
    let (table, column) = translation_names(kind);
    let mut fs: Vec<Filter> = Vec::new();
    fs.push(filter(column, FilterOp::Eq, target_id));
    fs.push(filter("locale", FilterOp::Eq, locale));
    RowsQuery { table: String::from_str(table), filters: fs, order: None }
}

/// Every translation of one shop.
pub fn shop_translations(shop_id: &str) -> (r: RowsQuery)
    ensures
        list_is(r, "shop_translations"@, seq![("shop_id"@, FilterOp::Eq, shop_id@)], None),
{
    let mut fs: Vec<Filter> = Vec::new();
    fs.push(filter("shop_id", FilterOp::Eq, shop_id));
    RowsQuery { table: String::from_str("shop_translations"), filters: fs, order: None }
}

/// The active languages, by name.
pub fn active_languages() -> (r: RowsQuery)
    ensures
        list_is(r, "languages"@, seq![("is_active"@, FilterOp::Eq, "true"@)], Some("name.asc"@)),
{
    let mut fs: Vec<Filter> = Vec::new();
    fs.push(filter("is_active", FilterOp::Eq, "true"));
    RowsQuery { table: String::from_str("languages"), filters: fs, order: Some(String::from_str("name.asc")) }
}

/// The language with code `code`.
pub fn language_by_code(code: &str) -> (r: RowsQuery)
    ensures
        list_is(r, "languages"@, seq![("code"@, FilterOp::Eq, code@)], None),
{
    let mut fs: Vec<Filter> = Vec::new();
    fs.push(filter("code", FilterOp::Eq, code));
    RowsQuery { table: String::from_str("languages"), filters: fs, order: None }
}

/// A user's unread notifications, newest first.
pub fn unread_notifications(user_id: &str) -> (r: RowsQuery)
    ensures
        list_is(
            r,
            "notifications"@,
            seq![("user_id"@, FilterOp::Eq, user_id@), ("read_at"@, FilterOp::IsNull, Seq::empty())],
            Some("created_at.desc"@),
        ),
{
    let mut fs: Vec<Filter> = Vec::new();
    fs.push(filter("user_id", FilterOp::Eq, user_id));
    fs.push(Filter { column: String::from_str("read_at"), op: FilterOp::IsNull, value: String::new() });
    RowsQuery { table: String::from_str("notifications"), filters: fs, order: Some(String::from_str("created_at.desc")) }
}

/// A status in the 2xx range.
pub open spec fn is_success_status(status: u16) -> bool {
    200 <= status <= 299
}

pub fn is_success(status: u16) -> (r: bool)
    ensures
        r == is_success_status(status),
{
    200 <= status && status <= 299
}

/// The row count of a count response whose status is `status` and whose
/// body yielded `parsed` (the number at its first row's `count`).
///
/// A failed count, or one whose body holds no count, gives `(0, false)`:
/// the page is still served, marked as counted in degraded mode.
pub fn count_from_parsed(status: u16, parsed: Option<u64>) -> (r: (u64, bool))
    ensures
        r == count_from_parsed_spec(status, parsed),
{
    if !is_success(status) {
        return (0, false);
    }
    match parsed {
        Some(n) => (n, true),
        None => (0, false),
    }
}

/// The row count carried by a count response, and whether it was obtained.
pub fn count_from_response(status: u16, body: &str) -> (r: (u64, bool))
    ensures
        r == count_from_parsed_spec(status, json_u64_at(body@, "/0/count"@)),
{
    count_from_parsed(status, read_u64_at(body, "/0/count"))
}

pub open spec fn count_from_parsed_spec(status: u16, parsed: Option<u64>) -> (u64, bool) {
    if !is_success_status(status) {
        (0u64, false)
    } else {
        match parsed {
            Some(n) => (n, true),
            None => (0u64, false),
        }
    }
}

/// The page envelope of a planned read, from its rows and its count
/// (`total`, and whether it was obtained).
pub fn finish_page<T>(query: &PageQuery, rows: Vec<T>, count: (u64, bool)) -> (r:
    PagenationResult<T>)
    requires
        query.wf(),
    ensures
        r.data@ == rows@,
        r.total == count.0,
        r.total_known == count.1,
        r.page == query.page,
        r.limit == query.limit,
        r.total_pages == ceil_div(count.0 as int, query.limit as int),
        r.has_next == (query.page < r.total_pages),
        r.has_prev == (query.page > 1),
{
    assemble(rows, count.0, query.page, query.limit, count.1)
}

/// A data fetch or a write must succeed: a non-success status fails it with
/// the database error that names the action and the status. (A failed row
/// count only degrades a page; see `count_from_parsed`.)
pub fn require_success(action: &str, status: u16) -> (r: Result<(), AppError>)
    ensures
        is_success_status(status) <==> r is Ok,
        r matches Err(e) ==> (e matches AppError::Database(m) && m@ == action@
            + " failed with status "@ + decimal(status as nat)),
{
    if is_success(status) {
        Ok(())
    } else {
        Err(status_failure(action, status))
    }
}

/// The failure for a non-success response: a database error that names the
/// action and the status observed.
pub fn status_failure(action: &str, status: u16) -> (r: AppError)
    ensures
        r matches AppError::Database(m) && m@ == action@ + " failed with status "@ + decimal(
            status as nat,
        ),
{
    let code = decimal_string(status as u64);
    AppError::Database(String::from_str(action).concat(" failed with status ").concat(code.as_str()))
}

} // verus!
