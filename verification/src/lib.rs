//! Core of a lightweight RPC framework: a length-delimited request/response
//! wire protocol, the buffers that build request and response frames, the
//! correlation machinery that matches responses to in-flight calls, and the
//! server-side dispatch step, together with a sample `Hello` service.
//!
//! The transports themselves (streams, sockets, the tasks that pump them)
//! live outside this crate; everything here works on plain values and is
//! what those transports agree on.

use vstd::prelude::*;

pub mod client;
pub mod endian;
pub mod errors;
pub mod frame;
pub mod hello;
pub mod queued;
pub mod server;
pub mod text;
pub mod waiter;

pub use client::{Client, StreamClient};
pub use errors::{Error, WireError};
pub use frame::{DecodeError, Frame, ReqBuf, RspBuf, FRAME_MAX_LEN};
pub use hello::{Hello, HelloClient, HelloRequest, HelloService};
pub use queued::WriteQueue;
pub use server::Server;
pub use waiter::WaiterTable;

verus! {

} // verus!
