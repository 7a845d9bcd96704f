//! Bodies of the responses and notifications that the server sends, each
//! written as tagged (TDF) fields.
pub mod association_lists;
pub mod authentication;
pub mod user_sessions;
