//! Role-based access control core: a closed permission catalog, tenant-scoped
//! roles, per-project memberships, a permission resolver and the TTL cache
//! that sits in front of it.
//!
//! Every mutation drops the cache entries it makes stale. A deletion that
//! cannot reach the cache is lost, and the stale entry is then served until
//! its time to live runs out: staleness is bounded by that time, never
//! longer. A store that cannot be reached makes resolution fail; it never
//! grants.

pub mod auth;
pub mod cache;
pub mod catalog;
pub mod config;
pub mod dto;
pub mod error;
pub mod guard;
pub mod keyed;
pub mod laws;
pub mod records;
pub mod store;
pub mod resolved;
pub mod service;
mod trusted;
