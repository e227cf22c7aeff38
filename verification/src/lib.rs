//! pv-hub: the verified core of a virtual solarimeter.
//!
//! The metric catalog, the Modbus register bank and request handling, the
//! configuration parsing, the Home Assistant discovery documents and the
//! retry policies of the service loops live here with their contracts.

pub mod catalog;
pub mod config;
pub mod model;
pub mod scheduler;
pub mod sinks;
pub mod text;
