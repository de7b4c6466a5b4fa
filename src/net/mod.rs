//! Networking: TCP streams driven step by step against the engine's socket primitives.
use vstd::prelude::*;

pub mod error;
pub mod tcp;
pub mod traits;

pub use self::error::{Error, Result};
pub use self::tcp::{ConnectStep, Connecting, EngineCall, Phase, SockAddr, StepView, TcpStream};
pub use self::traits::{Read, Sealed, ToSocketAddr, Write};

verus! {

/// Address family of IPv4 sockets.
pub const AF_INET: i32 = 2;
/// Socket type of a byte stream.
pub const SOCK_STREAM: i32 = 1;
/// Protocol number of TCP.
pub const IPPROTO_TCP: i32 = 6;

} // verus!
