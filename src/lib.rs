//! A client for the HTTP API of a time-series database: a configuration
//! builder, authenticated request construction, and the health-check model.

pub mod client;
pub mod health_check;
pub mod transport;
pub mod write_precision;

pub use client::{Auth, Client, ClientError, RequestAuth};
pub use health_check::{HealthCheck, Status};
pub use write_precision::WritePrecision;
