//! Device-session core of a smart-trainer client.
//!
//! The crate holds the decisions of a Bluetooth fitness-machine session as
//! verified, synchronous code: decoding of indoor-bike-data notifications,
//! the background tasks for discovery and for an established session as
//! step functions, and the consumer state that a display loop polls.
//! Radio access, task spawning and drawing belong to the program around it.

pub mod btuuid;
pub mod channel;
pub mod consumer;
pub mod discovery;
pub mod error;
pub mod registry;
pub mod session;
pub mod telemetry;
pub mod trainer;
