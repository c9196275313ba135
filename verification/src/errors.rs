//! Error types: `Error` is what clients observe, `WireError` is what a server
//! handler reports and what travels inside a response frame.

use vstd::prelude::*;

verus! {

/// Declares `std::io::Error` so that `Error::Io` can carry the underlying
/// transport failure. The value is opaque to the verified code; nothing is
/// assumed about it.
#[verifier::external_type_specification]
#[verifier::external_body]
pub struct ExIoError(std::io::Error);

/// All errors that can occur during the use of the rpc framework.
#[derive(Debug)]
pub enum Error {
    /// Any IO error.
    Io(std::io::Error),
    /// Error in deserializing a server response.
    ClientDeserialize(String),
    /// Error in serializing a client request.
    ClientSerialize(String),
    /// The server reported that it could not deserialize the request.
    ServerDeserialize(String),
    /// The server reported that it could not serialize its response.
    ServerSerialize(String),
    /// The server was unable to reply to the rpc client within some time.
    Timeout,
    /// The server returned a status error, notably for a handler failure.
    Status(String),
}

/// A server-supplied error, encoded into the response frame.
#[derive(Debug)]
pub enum WireError {
    /// The server could not deserialize the client request.
    ServerDeserialize(String),
    /// The server could not serialize its response.
    ServerSerialize(String),
    /// A handler-level failure, visible to the application.
    Status(String),
    /// A sentinel for server polling; it never wakes a client waiter.
    Polling,
}

} // verus!
