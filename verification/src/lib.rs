//! Ownership-scoped records behind a login: the criteria that filter them, the
//! rules that validate a write, the statements a store runs for them, and the
//! pending authorizations and sessions that tell who is asking.

pub mod auth;
pub mod config;
pub mod criteria;
pub mod error;
pub mod handlers;
pub mod http;
pub mod outside;
pub mod record;
pub mod store;
pub mod text;
pub mod types;
pub mod value;
