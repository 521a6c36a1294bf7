//! What a listener reports of its socket.

use crate::error::Error;
use crate::text::concat;
use vstd::prelude::*;

verus! {

/// Asks the listener to serve one connection.
#[derive(Clone, Copy, Debug, PartialEq, Eq)]
pub struct AcceptOnce;

/// Asks the listener to serve connections until its socket fails.
#[derive(Clone, Copy, Debug, PartialEq, Eq)]
pub struct ServeForever;

/// What a socket that cannot be bound means.
pub fn bind_failure(socket_path: &str, error: &str) -> (r: Error)
    ensures
        r matches Error::SocketBusy(text) && text@ == socket_path@ + " ("@ + error@ + ")"@,
{
    let open = concat(socket_path, " (");
    let body = concat(open.as_str(), error);
    Error::SocketBusy(concat(body.as_str(), ")"))
}

/// What it means to serve a socket that was never bound.
pub fn unbound_socket(socket_path: &str) -> (r: Error)
    ensures
        r matches Error::SocketBusy(text) && text@ == socket_path@,
{
    Error::SocketBusy(socket_path.to_string())
}

} // verus!
