//! A small URL shortener: short names that resolve to target URLs, with a
//! token-gated registry of mappings.

pub mod args;
pub mod auth;
pub mod config;
pub mod http;
pub mod laws;
pub mod listing;
pub mod mapping;
pub mod registry;
pub mod text;
