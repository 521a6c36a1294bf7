//! Failures that the library reports.

use vstd::prelude::*;

verus! {

/// A failure of the daemon.
#[derive(Debug, PartialEq, Eq)]
pub enum Error {
    /// Durable state contradicts itself.
    Invariant(String),
    /// Two secret files claim one attribute.
    SecretAttributeCollision { attribute_name: String, first: String, second: String },
    /// A secret file's path is not text; the bytes of the path.
    SecretFileNameNotUtf8(Vec<u8>),
    /// A message to an actor did not arrive.
    ActorSend(String),
    /// The build command failed.
    BuildFailed(String),
    /// The copy command failed.
    CopyFailed(String),
    /// The activation command failed.
    ActivationFailed(String),
    /// The daemon configuration could not be read.
    ConfigurationDecode(String),
    /// An actor was sent a request of another plane.
    UnexpectedActorRequest { actor: &'static str, request: &'static str },
    /// A frame is longer than its length prefix can say.
    FrameTooLarge { found: usize },
    /// A frame does not hold the bytes that its length prefix announces.
    FrameTruncated,
    /// The socket cannot be bound.
    SocketBusy(String),
    /// The daemon is not running.
    Shutdown,
    /// The socket group does not exist.
    UnknownUnixGroup(String),
    /// A connection's actor has stopped.
    ConnectionActorStopped,
    /// The runtime actor has stopped.
    RuntimeActorStopped,
    /// A frame that is not a request arrived.
    ExpectedRequestFrame,
    /// A reply carries no payload.
    ExpectedSingleReplyPayload,
}

} // verus!
