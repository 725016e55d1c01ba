//! Observability and lifecycle core for a relayer service: a metric registry
//! with a deterministic text exposition format, a worst-of health aggregator,
//! status decisions for the liveness/readiness endpoints, and an idempotent
//! graceful-shutdown coordinator.

pub mod collector;
pub mod config;
pub mod endpoints;
pub mod export;
pub mod health;
pub mod registry;
pub mod shutdown;
pub mod text;
