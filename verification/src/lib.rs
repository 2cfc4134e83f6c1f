//! MotorGuard: the verified core of a motorcycle safety and group-riding
//! platform. Ride lifecycle rules, SOS decisions, group membership rules,
//! authentication checks, error mapping and the textual encodings of the
//! domain types live here with their contracts.

pub mod errors;
pub mod text;
pub mod ids;
pub mod types;
pub mod models;
pub mod rides;
pub mod safety;
pub mod notifications;
pub mod location;
pub mod groups;
pub mod auth;
pub mod api;
pub mod config;
pub mod storage;
pub mod live;
