//! Typed, validated configuration for protocol collectors, resolved from raw
//! payloads of a versioned configuration store.
//!
//! - `schema`: the Modbus RTU schema, its closed enums and field defaults.
//! - `parser`: raw payload to typed configuration variant.
//! - `resolver`: semantic checks and accepted snapshots.
//! - `manager`: the active snapshot per path and the hot-reload step.
//! - `reader`: which store results become change events, and reconnection backoff.
//! - `laws`: properties that hold across these stages.
pub mod schema;
pub mod parser;
pub mod resolver;
pub mod manager;
pub mod reader;
pub mod laws;

pub use schema::{default_1, default_holding, default_none, CfgParity, ModbusRtuConfig, RegisterType};
