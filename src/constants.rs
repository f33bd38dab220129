use vstd::prelude::*;

verus! {

pub const API_VERSION: &'static str = "v1";

pub const MAX_PAGE_SIZE: u32 = 100;

pub const DEFAULT_PAGE_SIZE: u32 = 20;

pub const DEFAULT_LANGUAGE: &'static str = "en";

pub const DEFAULT_COUNTRY: &'static str = "KR";

pub const JWT_EXPIRY_HOURS: u64 = 24;

pub const REFRESH_TOKEN_EXPIRY_DAYS: u64 = 30;

pub const CACHE_TTL_SECONDS: u64 = 300;

pub const POPULAR_ITEMS_CACHE_TTL: u64 = 3600;

pub const LOG_LEVEL_DEV: &'static str = "debug";

pub const LOG_LEVEL_PROD: &'static str = "info";

pub const ERROR_UNAUTHORIZED: &'static str = "Unauthorized";

pub const ERROR_NOT_FOUND: &'static str = "Resource not found";

pub const ERROR_INVALID_INPUT: &'static str = "Invalid input";

pub const ERROR_INTERNAL_SERVER: &'static str = "Internal server error";

pub const SUCCESS_CREATED: &'static str = "Resource created successfully";

pub const SUCCESS_UPDATED: &'static str = "Resource updated successfully";

pub const SUCCESS_DELETED: &'static str = "Resource deleted successfully";

} // verus!
