//! How each request is handled, step by step.

pub mod admin;
pub mod auth;
pub mod calendar;
pub mod middleware;
pub mod submissions;
pub mod uploader_auth;
