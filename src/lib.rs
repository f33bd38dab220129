//! Core of the shop/discount data service: credential tiers and query
//! channels, the page engine, paginated query plans, the change-stream
//! subscription manager and the notification filter gate.

pub mod constants;
pub mod decimal;
pub mod error;
pub mod pagination;
pub mod validation;
pub mod credential;
pub mod json;
pub mod repository;
pub mod text;
pub mod realtime;
pub mod subscription;
pub mod notify;
pub mod auth;
pub mod cache;
pub mod dto;
pub mod localize;
pub mod writes;
pub mod time;
