use duk::dto::{page_request, paginated_response};
use duk::error::AppError;
use duk::pagination::{assemble, paginate, total_pages, Pagenation};
use duk::repository::{
    categories_by_parent, count_from_response, error_metrics_page, row_by_id, unread_notifications, finish_page, notifications_page, products_by_shop_page,
    products_page, shops_page, status_failure, FilterOp,
};
use duk::validation::validate_pagination;

#[test]
fn page_two_of_twenty_five_rows() {
    let (offset, limit) = paginate(2, 10).ok().unwrap();
    assert_eq!(offset, 10);
    assert_eq!(limit, 10);
    let r = assemble(vec![0u8; 10], 25, 2, 10, true);
    assert_eq!(r.total_pages, 3);
    assert!(r.has_next);
    assert!(r.has_prev);
    assert_eq!(r.data.len(), 10);
}

#[test]
fn page_count_is_the_ceiling_for_every_page() {
    for (total, limit, pages) in [(1u64, 1u32, 1u64), (10, 10, 1), (11, 10, 2), (99, 20, 5), (100, 100, 1)] {
        assert_eq!(total_pages(total, limit), pages);
        for page in 1..=(pages as u32 + 2) {
            let r = assemble(Vec::<u8>::new(), total, page, limit, true);
            assert_eq!(r.total_pages, pages);
            assert_eq!(r.has_next, (page as u64) < pages);
            assert_eq!(r.has_prev, page > 1);
        }
    }
}

#[test]
fn huge_totals_do_not_overflow() {
    assert_eq!(total_pages(u64::MAX, 1), u64::MAX);
    assert_eq!(total_pages(u64::MAX, 100), u64::MAX / 100 + 1);
}

#[test]
fn zero_page_or_zero_limit_is_a_validation_error() {
    for n in [0u32, 1, 7, 100, 101, u32::MAX] {
        assert!(matches!(paginate(0, n), Err(AppError::Validation(_))));
        assert!(matches!(paginate(n, 0), Err(AppError::Validation(_))));
    }
}

#[test]
fn limit_above_maximum_is_refused() {
    match validate_pagination(1, 101) {
        Err(AppError::Validation(m)) => assert_eq!(m, "Limit cannot exceed 100"),
        _ => panic!("expected a validation error"),
    }
    match validate_pagination(0, 10) {
        Err(AppError::Validation(m)) => assert_eq!(m, "Page must be greater than 0"),
        _ => panic!("expected a validation error"),
    }
    assert_eq!(validate_pagination(3, 100).ok(), Some((3, 100)));
}

#[test]
fn empty_total_has_no_pages() {
    for page in [1u32, 2, 50] {
        let r = assemble(Vec::<u8>::new(), 0, page, 20, true);
        assert_eq!(r.total_pages, 0);
        assert!(!r.has_next);
        assert_eq!(r.has_prev, page > 1);
    }
}

#[test]
fn largest_offset_fits() {
    let (offset, _) = paginate(u32::MAX, 100).ok().unwrap();
    assert_eq!(offset, (u32::MAX as u64 - 1) * 100);
}

#[test]
fn product_plan_filters_live_rows() {
    let q = products_by_shop_page("s1", &Pagenation { page: 3, limit: 20 }).ok().unwrap();
    assert_eq!(q.table, "products");
    assert_eq!(q.order, "created_at.desc");
    assert_eq!(q.offset, 40);
    assert_eq!(q.range_end(), 59);
    assert_eq!(q.filters.len(), 2);
    assert_eq!(q.filters[0].column, "shop_id");
    assert_eq!(q.filters[0].value, "s1");
    assert_eq!(q.filters[1].column, "is_deleted");
    assert_eq!(q.filters[1].value, "false");
    let all = products_page(&Pagenation { page: 1, limit: 5 }).ok().unwrap();
    assert_eq!(all.filters.len(), 1);
    assert_eq!(all.range_end(), 4);
}

#[test]
fn other_family_plans() {
    let s = shops_page(&Pagenation { page: 1, limit: 10 }).ok().unwrap();
    assert_eq!(s.table, "shops");
    assert!(s.filters.is_empty());
    let n = notifications_page("u9", &Pagenation { page: 2, limit: 10 }).ok().unwrap();
    assert_eq!(n.table, "notifications");
    assert_eq!(n.filters[0].column, "user_id");
    assert_eq!(n.filters[0].value, "u9");
    let e = error_metrics_page(&Pagenation { page: 1, limit: 10 }).ok().unwrap();
    assert!(e.filters[0].op == FilterOp::Gte);
    assert_eq!(e.filters[0].value, "400");
    assert!(matches!(products_page(&Pagenation { page: 0, limit: 10 }), Err(AppError::Validation(_))));
}

#[test]
fn count_is_read_from_the_response_body() {
    assert_eq!(count_from_response(200, r#"[{"count": 25}]"#), (25, true));
    assert_eq!(count_from_response(206, r#"[{"count":0}]"#), (0, true));
    assert_eq!(count_from_response(500, r#"[{"count": 25}]"#), (0, false));
    assert_eq!(count_from_response(200, "not json"), (0, false));
    assert_eq!(count_from_response(200, "[]"), (0, false));
}

#[test]
fn degraded_count_is_flagged() {
    let q = products_page(&Pagenation { page: 1, limit: 10 }).ok().unwrap();
    let r = finish_page(&q, vec![1, 2, 3], count_from_response(503, ""));
    assert_eq!(r.total, 0);
    assert!(!r.total_known);
    assert!(!r.has_next);
    assert_eq!(r.data, vec![1, 2, 3]);
    let ok = finish_page(&q, vec![1], (31, true));
    assert_eq!(ok.total_pages, 4);
    assert!(ok.total_known);
}

#[test]
fn failed_status_becomes_a_database_error() {
    match status_failure("create notification", 409) {
        AppError::Database(m) => assert_eq!(m, "create notification failed with status 409"),
        _ => panic!("expected a database error"),
    }
}

#[test]
fn list_defaults_and_envelope() {
    let p = page_request(None, None);
    assert_eq!((p.page, p.limit), (1, 20));
    let p = page_request(Some(4), Some(7));
    assert_eq!((p.page, p.limit), (4, 7));
    let r = paginated_response(assemble(vec!["a"], 25, 2, 10, true));
    assert!(r.success);
    assert_eq!(r.pagination.total_pages, 3);
    assert_eq!(r.data, vec!["a"]);
}

#[test]
fn list_plans() {
    let r = row_by_id("shops", -42);
    assert_eq!(r.table, "shops");
    assert_eq!(r.filters[0].value, "-42");
    assert!(r.order.is_none());
    assert_eq!(row_by_id("products", i64::MIN).filters[0].value, i64::MIN.to_string());
    let top = categories_by_parent(None);
    assert!(top.filters[0].op == FilterOp::IsNull);
    assert_eq!(top.order.as_deref(), Some("name.asc"));
    let sub = categories_by_parent(Some(7));
    assert!(sub.filters[0].op == FilterOp::Eq);
    assert_eq!(sub.filters[0].value, "7");
    let u = unread_notifications("u1");
    assert_eq!(u.filters.len(), 2);
    assert_eq!(u.filters[1].column, "read_at");
}
