//! Typed client core for a remote leaderboard and persona lookup service.
//!
//! The remote service owns all storage and ranking; this crate holds the
//! client-side logic around one request/response exchange: building the
//! request a call sends, and the light post-processing applied to what the
//! service answers. The network transport itself lives outside the crate.

pub mod messages;
pub mod model;
pub mod requests;
pub mod responses;
