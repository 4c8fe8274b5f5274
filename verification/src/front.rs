//! The front of the program: who is served by which side.

use vstd::prelude::*;
use vstd::string::*;
use crate::reply::Status;

verus! {

/// The two sides of the program.
#[derive(Debug, Clone, Copy, PartialEq, Eq, Structural)]
pub enum Side {
    /// Forwards the requests of this machine to the mesh.
    Proxy,
    /// Serves the store of this machine to the mesh.
    Store,
}

/// The side that serves a peer, by whether its address is a loopback address, where
/// it is known: only a peer on this machine may use the proxy.
pub fn dispatch(loopback: Option<bool>) -> (side: Side)
    ensures
        side == Side::Proxy <==> loopback == Some(true),
{
    match loopback {
        Some(true) => Side::Proxy,
        _ => Side::Store,
    }
}

/// The greeting of the proxy.
pub fn root() -> (greeting: (Status, &'static str))
    ensures
        greeting.0 == Status::Success,
        greeting.1@ == "Hello, World!"@,
{
    (Status::Success, "Hello, World!")
}

/// What the proxy answers: the relayed reply, or that there is none.
pub fn handler<T>(forwarded: Option<T>) -> (answer: Result<T, Status>)
    ensures
        answer == (match forwarded {
            Some(reply) => Ok(reply),
            None => Err(Status::NotFound),
        }),
{
    match forwarded {
        Some(reply) => Ok(reply),
        None => Err(Status::NotFound),
    }
}

} // verus!
