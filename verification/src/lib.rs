//! Multi-tenant rate-limiting service logic: policies, Redis key layout,
//! request authorization, error mapping and the retry discipline of the
//! limiter, each stated and proved with Verus.

pub mod api;
pub mod config;
pub mod metrics;
pub mod rate_limiter;
