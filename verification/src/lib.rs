//! A synthetic-load generator core for an error/trace-reporting backend.
//!
//! The library resolves configuration from raw setting values, plans the
//! streams of synthetic error events and nested transaction traces that each
//! runner emits, and lays out the runner fan-out. Reading the environment,
//! talking to the telemetry backend and spawning threads are left to the
//! binary around it.

pub mod config;
pub mod run;
pub mod text;

pub use config::Config;
pub use config::ConfigError;
pub use config::Setting;
pub use text::parse_u32;
pub use text::u64_dec;
