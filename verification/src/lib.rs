//! Rules of a document-submission portal: input validation, the submission
//! lifecycle, meeting-slot booking, sessions and rate limiting, written so that
//! every decision is a verified function of plain values.

pub mod archive;
pub mod calendar;
pub mod config;
pub mod credentials;
pub mod db;
pub mod documents;
pub mod handlers;
pub mod ids;
pub mod lifecycle;
pub mod models;
pub mod protocol;
pub mod rate_limit;
pub mod sessions;
pub mod text;
pub mod validation;
