//! A small framed, point-to-point networking library: one server, one client,
//! each talking to a background worker over channels.
//!
//! This crate holds the decisions those workers and endpoints make, each with
//! a contract: how frames are counted on the way out, how received frames are
//! judged in or out of order, what a worker does with each event, and how the
//! messages of a worker reach the user.
use vstd::prelude::*;

pub mod link;
pub mod client;
pub mod server;

pub use server::ClientResponse;
pub use client::ServerResponse;

verus! {

/// Results of the library.
pub type NetResult<T> = Result<T, NetError>;

/// A unit of data on the wire, tagged with its position in the sender's stream.
#[derive(Debug)]
pub struct Frame<T> {
    pub frame_counter: u64,
    pub data: T,
}

/// Errors of the library.
#[derive(Debug)]
pub enum NetError {
    /// An internal channel was disconnected.
    ChannelDisconnected,
    /// There was an IO error.
    IoError(std::io::Error),
    /// The server was unable to bind to the given port.
    BindError,
    /// The connection attempt was refused by the peer.
    ConnectionRefused,
    /// A spawned thread panicked; this is the message it panicked with.
    JoinError(String),
    /// An internal mutex was poisoned.
    MutexPoisoned,
    /// A channel endpoint delivered an unexpected response.
    UnexpectedResponse,
    /// The background thread is not running.
    NotRunning,
    /// Error serialising to JSON.
    SerializationError(serde_json::Error),
    /// Error deserialising from JSON.
    DesrializationError(serde_json::Error),
}

/// `std::io::Error`, carried through the library unopened.
#[verifier::external_type_specification]
#[verifier::external_body]
pub struct ExIoError(std::io::Error);

/// `std::io::ErrorKind`, whose variants the workers tell apart.
#[verifier::external_type_specification]
pub struct ExIoErrorKind(std::io::ErrorKind);

/// `serde_json::Error`, carried through the library unopened.
#[verifier::external_type_specification]
#[verifier::external_body]
pub struct ExJsonError(serde_json::Error);

/// `std::sync::mpsc::TryRecvError`: `Empty` or `Disconnected`.
#[verifier::external_type_specification]
pub struct ExTryRecvError(std::sync::mpsc::TryRecvError);

/// `std::sync::mpsc::RecvError`, carried unopened.
#[verifier::external_type_specification]
#[verifier::external_body]
pub struct ExRecvError(std::sync::mpsc::RecvError);

/// `std::sync::mpsc::SendError`, carried unopened.
#[verifier::external_type_specification]
#[verifier::external_body]
#[verifier::reject_recursive_types(T)]
pub struct ExSendError<T>(std::sync::mpsc::SendError<T>);

/// `std::sync::PoisonError`, carried unopened.
#[verifier::external_type_specification]
#[verifier::external_body]
#[verifier::reject_recursive_types(T)]
pub struct ExPoisonError<T>(std::sync::PoisonError<T>);

impl From<std::io::Error> for NetError {
    fn from(error: std::io::Error) -> (r: Self) {
        NetError::IoError(error)
    }
}

impl vstd::std_specs::convert::FromSpecImpl<std::io::Error> for NetError {
    open spec fn obeys_from_spec() -> bool {
        true
    }

    open spec fn from_spec(v: std::io::Error) -> Self {
        NetError::IoError(v)
    }
}

impl<T> From<std::sync::mpsc::SendError<T>> for NetError {
    fn from(error: std::sync::mpsc::SendError<T>) -> (r: Self) {
        NetError::ChannelDisconnected
    }
}

impl<T> vstd::std_specs::convert::FromSpecImpl<std::sync::mpsc::SendError<T>> for NetError {
    open spec fn obeys_from_spec() -> bool {
        true
    }

    open spec fn from_spec(v: std::sync::mpsc::SendError<T>) -> Self {
        NetError::ChannelDisconnected
    }
}

impl From<std::sync::mpsc::RecvError> for NetError {
    fn from(error: std::sync::mpsc::RecvError) -> (r: Self) {
        NetError::ChannelDisconnected
    }
}

impl vstd::std_specs::convert::FromSpecImpl<std::sync::mpsc::RecvError> for NetError {
    open spec fn obeys_from_spec() -> bool {
        true
    }

    open spec fn from_spec(v: std::sync::mpsc::RecvError) -> Self {
        NetError::ChannelDisconnected
    }
}

impl<T> From<std::sync::PoisonError<T>> for NetError {
    fn from(error: std::sync::PoisonError<T>) -> (r: Self) {
        NetError::MutexPoisoned
    }
}

impl<T> vstd::std_specs::convert::FromSpecImpl<std::sync::PoisonError<T>> for NetError {
    open spec fn obeys_from_spec() -> bool {
        true
    }

    open spec fn from_spec(v: std::sync::PoisonError<T>) -> Self {
        NetError::MutexPoisoned
    }
}

/// The user's end of a client or a server can only talk to a background
/// thread that runs.
pub fn require_running(running: bool) -> (r: NetResult<()>)
    ensures
        running ==> r is Ok,
        !running ==> r == Err::<(), NetError>(NetError::NotRunning),
{
    if running {
        Ok(())
    } else {
        Err(NetError::NotRunning)
    }
}

/// The outcome of shutting a client or a server down, given what joining its
/// background thread gave (`None` where there was no thread to join).
pub fn shutdown_result(joined: Option<Result<NetResult<()>, String>>) -> (r: NetResult<()>)
    ensures
        r == match joined {
            None => Err(NetError::NotRunning),
            Some(Ok(res)) => res,
            Some(Err(message)) => Err(NetError::JoinError(message)),
        },
{
    match joined {
        Some(j) => join_result(j),
        None => Err(NetError::NotRunning),
    }
}

/// What the owner of a worker thread gets back from joining it: the worker's
/// own result, or, where the worker panicked, the message it panicked with.
pub fn join_result(joined: Result<NetResult<()>, String>) -> (r: NetResult<()>)
    ensures
        r == match joined {
            Ok(res) => res,
            Err(payload) => Err(NetError::JoinError(payload)),
        },
{
    match joined {
        Ok(res) => res,
        Err(payload) => Err(NetError::JoinError(payload)),
    }
}

/// The category of an I/O error, as `std::io::Error::kind` reports it; it
/// depends on the error alone.
pub uninterp spec fn error_kind_of(error: std::io::Error) -> std::io::ErrorKind;

/// `std::io::Error::kind`: the category of an I/O error. The contract names
/// it `error_kind_of` and claims nothing of which category that is.
#[verifier::external_body]
pub(crate) fn io_error_kind(error: &std::io::Error) -> (kind: std::io::ErrorKind)
    ensures
        kind == error_kind_of(*error),
{
    error.kind()
}

/// The categories of I/O error that mean the peer has gone away.
pub open spec fn is_disconnect(kind: std::io::ErrorKind) -> bool {
    ||| kind is NotConnected
    ||| kind is ConnectionAborted
    ||| kind is ConnectionReset
}

} // verus!
