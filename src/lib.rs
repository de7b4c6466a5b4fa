//! Safe interface to the MXCHIP WiFi engine: status codes, handler slots for the
//! engine's events, network configuration and the steps of a TCP stream.
//!
//! The engine is driven from outside this crate: each function here takes what
//! the engine reported and says what to hand it next.
pub mod abi;
pub mod config;
pub mod device;
pub mod net;
pub mod registry;
pub mod status;

pub use abi::{decode_text, payload_len, write_version};
pub use config::{strcpy, NetworkConfig};
pub use cstr_core::{CStr, FromBytesWithNulError};
pub use device::{Mode, MxChip};
pub use registry::Slot;
pub use status::StatusError;
