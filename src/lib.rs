//! Authorization and review workflow for streamer applications: identity and
//! role resolution, ownership-based access control, the status transition
//! table with its audit comments, the admin search filter, and a store that
//! runs every operation of the service over in-memory records.

pub mod enums;
pub mod error;
pub mod auth;
pub mod types;
pub mod workflow;
pub mod query;
pub mod store;
pub mod config;
