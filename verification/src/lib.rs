//! State engine for an addressable RGB keyboard daemon.
//!
//! The crate holds the authoritative in-memory lighting state of the
//! keyboard, pushes it to an abstract hardware driver through a dirty-flag
//! gated `sync`, encodes and decodes the persisted state image, and
//! dispatches framed client requests to the engine.

pub mod color;
pub mod driver;
pub mod keyboard;
pub mod proto;
