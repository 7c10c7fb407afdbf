//! Shared ownership of native handles, a device-context execution bridge and
//! a uniform mapping of native call results, for an inference runtime binding.
pub mod adapter;
pub mod bridge;
pub mod error;
pub mod handle;
pub mod metrics;
pub mod text;
