//! Typed bindings for the Blooio API: the sans-IO core.

pub mod config;
pub mod credentials;
pub mod diagnostics;
pub mod encode;
pub mod error;
pub mod executor;
pub mod json;
pub mod multipart;
pub mod operation;
pub mod options;
pub mod pagination;
pub mod ratelimit;
pub mod raw;
pub mod request;
pub mod resources;
pub mod response;
pub mod retry;
pub mod secret;
pub mod text;
pub mod time;
pub mod types;
