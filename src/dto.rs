use vstd::prelude::*;
use crate::constants::DEFAULT_PAGE_SIZE;
use crate::pagination::{Pagenation, PagenationResult};

verus! {

/// The envelope of a single-item answer.
pub struct ApiResponse<T> {
    pub success: bool,
    pub data: Option<T>,
    pub message: Option<String>,
    pub error: Option<String>,
}

/// The envelope of a paginated answer.
pub struct PaginatedResponse<T> {
    pub success: bool,
    pub data: Vec<T>,
    pub pagination: PaginationInfo,
    pub message: Option<String>,
}

/// The page accounting shown to clients.
pub struct PaginationInfo {
    pub page: u32,
    pub limit: u32,
    pub total: u64,
    pub total_pages: u64,
    pub has_next: bool,
    pub has_prev: bool,
}

pub struct ShopTranslationResponse {
    pub locale: String,
    pub name: String,
    pub description: Option<String>,
}

pub struct ProductTranslationResponse {
    pub locale: String,
    pub name: String,
    pub description: Option<String>,
}

pub struct BrandTranslationResponse {
    pub locale: String,
    pub name: String,
    pub description: Option<String>,
}

pub struct CategoryTranslationResponse {
    pub locale: String,
    pub name: String,
    pub description: Option<String>,
}

pub struct DiscountInfoTranslationResponse {
    pub locale: String,
    pub description: Option<String>,
    pub terms_conditions: Option<String>,
}

pub struct DiscountEventTranslationResponse {
    pub locale: String,
    pub title: String,
    pub description: Option<String>,
}

pub struct NotificationTranslationResponse {
    pub locale: String,
    pub title: Option<String>,
    pub message: String,
}

pub struct HealthResponse {
    pub status: String,
    pub timestamp: String,
    pub version: String,
    pub database: String,
}

pub struct CreateShopRequest {
    pub name: String,
    pub domain: String,
    pub platform: String,
    pub logo_url: Option<String>,
}

pub struct UpdateShopRequest {
    pub name: Option<String>,
    pub domain: Option<String>,
    pub platform: Option<String>,
    pub logo_url: Option<String>,
}

pub struct CreateProductRequest {
    pub shop_id: String,
    pub brand_id: Option<String>,
    pub category_id: Option<String>,
    pub name: String,
    pub sku: Option<String>,
}

pub struct UpdateProductRequest {
    pub brand_id: Option<String>,
    pub category_id: Option<String>,
    pub name: Option<String>,
    pub sku: Option<String>,
    pub is_deleted: Option<bool>,
}

pub struct CreateProfileRequest {
    pub user_id: String,
    pub email: String,
    pub avatar_url: Option<String>,
    pub preferred_country: Option<String>,
    pub language: Option<String>,
    pub timezone: Option<String>,
}

pub struct UpdateProfileRequest {
    pub avatar_url: Option<String>,
    pub preferred_country: Option<String>,
    pub language: Option<String>,
    pub timezone: Option<String>,
}

pub struct CreateSubscriptionRequest {
    pub user_id: String,
    pub target_id: String,
}

/// Query parameters of a list endpoint.
pub struct ListQuery {
    pub page: Option<u32>,
    pub limit: Option<u32>,
    pub sort_by: Option<String>,
    pub order: Option<String>,
    pub search: Option<String>,
}

/// Query parameters of the product list.
pub struct ProductQuery {
    pub page: Option<u32>,
    pub limit: Option<u32>,
    pub country: Option<String>,
}

pub struct LanguageHeader {
    pub accept_language: String,
}

/// The page request of a list endpoint: page 1 and the default page size
/// where the client gave none.
pub fn page_request(page: Option<u32>, limit: Option<u32>) -> (r: Pagenation)
    ensures
        r.page == match page {
            Some(p) => p,
            None => 1u32,
        },
        r.limit == match limit {
            Some(l) => l,
            None => DEFAULT_PAGE_SIZE,
        },
{
    let p = match page {
        Some(p) => p,
        None => 1,
    };
    let l = match limit {
        Some(l) => l,
        None => DEFAULT_PAGE_SIZE,
    };
    Pagenation { page: p, limit: l }
}

/// The client-facing envelope of a page: its rows and its accounting.
pub fn paginated_response<T>(result: PagenationResult<T>) -> (r: PaginatedResponse<T>)
    ensures
        r.success,
        r.data@ == result.data@,
        r.pagination.page == result.page,
        r.pagination.limit == result.limit,
        r.pagination.total == result.total,
        r.pagination.total_pages == result.total_pages,
        r.pagination.has_next == result.has_next,
        r.pagination.has_prev == result.has_prev,
        r.message is None,
{
    let PagenationResult { data, total, page, limit, total_pages, has_next, has_prev, .. } = result;
    PaginatedResponse {
        success: true,
        data,
        pagination: PaginationInfo { page, limit, total, total_pages, has_next, has_prev },
        message: None,
    }
}

} // verus!
