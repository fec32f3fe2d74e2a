//! Client-side service discovery: a watch loop feeds a per-service address
//! cache from a registry's health endpoint, and a selection policy picks one
//! cached address per request.

pub mod agent;
pub mod api;
pub mod cache;
pub mod catalog;
pub mod config_entry;
pub mod health;
pub mod text;
pub mod watch;
