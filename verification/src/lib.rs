//! Core of a URL-shortening service: short-code generation, the link table,
//! shortening with bounded retries, resolution with expiry, and reclamation of
//! expired links.

mod clock;
pub mod code;
pub mod lifecycle;
pub mod link;
pub mod reclaim;
pub mod reply;
pub mod resolve;
pub mod shorten;
pub mod store;
