//! The server: how it starts, how its listener treats incoming connections,
//! what a connection's worker does with each event, and what the user's end
//! of a server makes of the messages it gets.
use vstd::prelude::*;
use std::sync::mpsc::{TryRecvError, RecvError};
use std::io::ErrorKind;
use crate::{Frame, NetError, NetResult, join_result, io_error_kind, is_disconnect, error_kind_of};
pub use crate::{require_running, shutdown_result};
use crate::link::{Link, Delivery, Step, in_order};

verus! {

/// What the user of a server hears from the client.
#[derive(Debug)]
pub enum ClientResponse<R> {
    /// Nothing has arrived.
    Nothing,
    /// Data that arrived in order.
    Recieved(R),
    /// Data whose frame was not the one expected.
    ReceivedOutOfOrder(R),
    /// The client went away.
    Disconnected,
    /// An error in the connection.
    Error(NetError),
}

/// Commands from the user's end of a server to the worker of its connection.
pub enum ServerCommand<S> {
    Shutdown,
    Send(S),
}

/// Messages from the listener and the connection worker to the user's end.
pub enum ServerResponse<R> {
    BindSuccessful,
    BindFailed,
    Received(R),
    ReceivedOutOfOrder(R),
    Error(NetError),
    Disconnected,
}

/// How `Server::start` goes on after the listener's first message.
pub enum StartStep {
    /// The listener is bound: the server runs.
    Running,
    /// The listener could not bind: join it and report its error.
    BindFailed,
    /// Fail with this error.
    Fail(NetError),
}

/// What the listener does with a connection attempt.
pub enum AcceptStep {
    /// The attempt failed: carry on listening.
    Ignore,
    /// Start a worker for the new connection.
    Start,
    /// Shut the running worker down, join it, then start one for the new connection.
    ReplaceThenStart,
}

/// The listener's state: whether a connection worker runs.
pub struct AcceptLoop {
    pub client_running: bool,
}

/// The worker's message for a frame judged by `in_order`.
pub open spec fn delivered<R>(expected: u64, frame: Frame<R>) -> ServerResponse<R> {
    if in_order(expected, frame.frame_counter) {
        ServerResponse::Received(frame.data)
    } else {
        ServerResponse::ReceivedOutOfOrder(frame.data)
    }
}

/// What the user hears for a message (or the lack of one) on the server's channel.
pub open spec fn response_spec<R>(polled: Result<ServerResponse<R>, TryRecvError>) -> NetResult<ClientResponse<R>> {
    match polled {
        Ok(ServerResponse::Disconnected) => Ok(ClientResponse::Disconnected),
        Ok(ServerResponse::Received(r)) => Ok(ClientResponse::Recieved(r)),
        Ok(ServerResponse::ReceivedOutOfOrder(r)) => Ok(ClientResponse::ReceivedOutOfOrder(r)),
        Ok(ServerResponse::Error(e)) => Ok(ClientResponse::Error(e)),
        Ok(ServerResponse::BindSuccessful) => Err(NetError::UnexpectedResponse),
        Ok(ServerResponse::BindFailed) => Err(NetError::UnexpectedResponse),
        Err(TryRecvError::Empty) => Ok(ClientResponse::Nothing),
        Err(TryRecvError::Disconnected) => Err(NetError::ChannelDisconnected),
    }
}

/// How `Server::start` goes on after receiving the listener's first message.
pub open spec fn start_spec<R>(first: Result<ServerResponse<R>, RecvError>) -> StartStep {
    match first {
        Ok(ServerResponse::BindFailed) => StartStep::BindFailed,
        Ok(_) => StartStep::Running,
        Err(_) => StartStep::Fail(NetError::ChannelDisconnected),
    }
}

/// The error `Server::start` reports after joining a listener that could not bind.
pub open spec fn start_failure_spec(joined: Result<NetResult<()>, String>) -> NetError {
    match joined {
        Ok(Err(err)) => err,
        Err(message) => NetError::JoinError(message),
        Ok(Ok(_)) => NetError::BindError,
    }
}

/// `Server::start` succeeds exactly when the listener could bind, and where it
/// could not, `start` reports the listener's `BindError`.
pub proof fn lemma_start_follows_bind<R>(bound: bool, first: ServerResponse<R>, listener_result: NetResult<()>)
    requires
        bound ==> first is BindSuccessful,
        !bound ==> first is BindFailed,
        !bound ==> listener_result == Err::<(), NetError>(NetError::BindError),
    ensures
        start_spec(Ok::<ServerResponse<R>, RecvError>(first)) is Running <==> bound,
        start_spec(Ok::<ServerResponse<R>, RecvError>(first)) is BindFailed <==> !bound,
        !bound ==> start_failure_spec(Ok(listener_result)) == NetError::BindError,
{
}

/// What the worker does with a failed read of the given category.
pub open spec fn read_failure_spec<S, R>(kind: ErrorKind, error: std::io::Error) -> Step<S, ServerResponse<R>> {
    if kind is WouldBlock {
        Step::Idle
    } else if is_disconnect(kind) {
        Step::ReportAndStop(ServerResponse::Disconnected)
    } else {
        Step::Fail(NetError::IoError(error))
    }
}

/// What the user hears, given what polling the server's channel gave; the
/// listener's bind reports are not meant for this point.
pub fn response_for<R>(polled: Result<ServerResponse<R>, TryRecvError>) -> (r: NetResult<ClientResponse<R>>)
    ensures
        r == response_spec(polled),
        polled matches Ok(ServerResponse::Error(e)) ==> r == Ok::<ClientResponse<R>, NetError>(ClientResponse::Error(e)),
        polled matches Ok(ServerResponse::Received(d)) ==> r == Ok::<ClientResponse<R>, NetError>(ClientResponse::Recieved(d)),
        polled matches Ok(ServerResponse::ReceivedOutOfOrder(d)) ==> r == Ok::<ClientResponse<R>, NetError>(ClientResponse::ReceivedOutOfOrder(d)),
        r matches Ok(ClientResponse::Disconnected) ==> polled matches Ok(ServerResponse::Disconnected),
        r matches Ok(ClientResponse::Error(e)) ==> polled == Ok::<ServerResponse<R>, TryRecvError>(ServerResponse::Error(e)),
        r matches Ok(ClientResponse::Recieved(d)) ==> polled == Ok::<ServerResponse<R>, TryRecvError>(ServerResponse::Received(d)),
        r matches Ok(ClientResponse::ReceivedOutOfOrder(d)) ==> polled == Ok::<ServerResponse<R>, TryRecvError>(ServerResponse::ReceivedOutOfOrder(d)),
        r matches Ok(ClientResponse::Nothing) ==> polled matches Err(TryRecvError::Empty),
{
    match polled {
        Ok(ServerResponse::Disconnected) => Ok(ClientResponse::Disconnected),
        Ok(ServerResponse::Received(r)) => Ok(ClientResponse::Recieved(r)),
        Ok(ServerResponse::ReceivedOutOfOrder(r)) => Ok(ClientResponse::ReceivedOutOfOrder(r)),
        Ok(ServerResponse::Error(e)) => Ok(ClientResponse::Error(e)),
        Ok(_) => Err(NetError::UnexpectedResponse),
        Err(TryRecvError::Empty) => Ok(ClientResponse::Nothing),
        Err(TryRecvError::Disconnected) => Err(NetError::ChannelDisconnected),
    }
}

/// The listener's first message: whether it could bind.
pub fn bind_report<R>(bound: bool) -> (m: ServerResponse<R>)
    ensures
        bound ==> m is BindSuccessful,
        !bound ==> m is BindFailed,
{
    if bound {
        ServerResponse::BindSuccessful
    } else {
        ServerResponse::BindFailed
    }
}

/// How the listener ends when it could not bind.
pub fn bind_failure() -> (r: NetResult<()>)
    ensures
        r == Err::<(), NetError>(NetError::BindError),
{
    Err(NetError::BindError)
}

/// How `Server::start` goes on, given what waiting for the listener's first
/// message gave.
pub fn start_step<R>(first: Result<ServerResponse<R>, RecvError>) -> (step: StartStep)
    ensures
        step == start_spec(first),
{
    match first {
        Ok(ServerResponse::BindFailed) => StartStep::BindFailed,
        Ok(_) => StartStep::Running,
        Err(e) => StartStep::Fail(NetError::from(e)),
    }
}

/// The error `Server::start` reports once it joined a listener that could not
/// bind: the listener's own error, or the message it panicked with.
pub fn start_failure(joined: Result<NetResult<()>, String>) -> (e: NetError)
    requires
        !(joined matches Ok(Ok(_))),
    ensures
        e == start_failure_spec(joined),
{
    match joined {
        Ok(Err(err)) => err,
        Err(payload) => NetError::JoinError(payload),
        Ok(Ok(_)) => NetError::BindError,
    }
}

impl AcceptLoop {
    /// A listener with no connection worker.
    pub fn new() -> (l: AcceptLoop)
        ensures
            !l.client_running,
    {
        AcceptLoop { client_running: false }
    }

    /// What the listener does with a connection attempt: a failed attempt is
    /// ignored; an accepted one gets a worker, and once a worker was started,
    /// the listener first shuts the running one down (by a Shutdown command on
    /// the shared channel) and joins it, so that never more than one runs. A
    /// worker that already ended by itself leaves that Shutdown queued, and
    /// the new worker then takes it and ends at once.
    pub fn on_incoming(&mut self, accepted: bool) -> (step: AcceptStep)
        ensures
            !accepted ==> step is Ignore && final(self).client_running == old(self).client_running,
            accepted && old(self).client_running ==> step is ReplaceThenStart,
            accepted && !old(self).client_running ==> step is Start,
            accepted ==> final(self).client_running,
    {
        if !accepted {
            AcceptStep::Ignore
        } else if self.client_running {
            AcceptStep::ReplaceThenStart
        } else {
            self.client_running = true;
            AcceptStep::Start
        }
    }

    /// How the listener goes on once it joined the worker it replaced: carry
    /// on where the worker ended well, else end with the worker's error, or
    /// with the message it panicked with.
    pub fn on_replaced(&self, joined: Result<NetResult<()>, String>) -> (r: NetResult<()>)
        ensures
            r == match joined {
                Ok(res) => res,
                Err(payload) => Err(NetError::JoinError(payload)),
            },
    {
        join_result(joined)
    }
}

/// What the worker does with what polling the command channel gave.
pub fn command_step<S, R>(link: &Link, cmd: Result<ServerCommand<S>, TryRecvError>) -> (step: Step<S, ServerResponse<R>>)
    ensures
        match cmd {
            Ok(ServerCommand::Shutdown) => step is Shutdown,
            Ok(ServerCommand::Send(d)) => step == Step::<S, ServerResponse<R>>::Write(
                (Frame { frame_counter: link.send_frame_counter, data: d }),
            ),
            Err(TryRecvError::Empty) => step is Idle,
            Err(TryRecvError::Disconnected) => step == Step::<S, ServerResponse<R>>::Fail(NetError::ChannelDisconnected),
        },
{
    match cmd {
        Ok(ServerCommand::Shutdown) => Step::Shutdown,
        Ok(ServerCommand::Send(d)) => Step::Write(link.frame_for(d)),
        Err(TryRecvError::Empty) => Step::Idle,
        Err(TryRecvError::Disconnected) => Step::Fail(NetError::ChannelDisconnected),
    }
}

/// What the worker does with what a successful read gave: `None` where the
/// read gave no bytes (nothing to do), else the bytes parsed into a frame (or
/// the parse error).
pub fn frame_step<S, R>(link: &mut Link, parsed: Option<NetResult<Frame<R>>>) -> (step: Step<S, ServerResponse<R>>)
    requires
        parsed matches Some(Ok(f)) ==> f.frame_counter < u64::MAX,
    ensures
        final(link).send_frame_counter == old(link).send_frame_counter,
        parsed matches Some(Ok(f)) ==> {
            &&& (old(link).recv_frame_counter == 0 || f.frame_counter == old(link).recv_frame_counter)
                ==> step == Step::<S, ServerResponse<R>>::Report(ServerResponse::Received(f.data))
            &&& (old(link).recv_frame_counter != 0 && f.frame_counter != old(link).recv_frame_counter)
                ==> step == Step::<S, ServerResponse<R>>::Report(ServerResponse::ReceivedOutOfOrder(f.data))
        },
        match parsed {
            None => {
                &&& final(link).recv_frame_counter == old(link).recv_frame_counter
                &&& step is Idle
            },
            Some(Ok(f)) => {
                &&& final(link).recv_frame_counter == f.frame_counter + 1
                &&& step == Step::<S, ServerResponse<R>>::Report(delivered(old(link).recv_frame_counter, f))
            },
            Some(Err(e)) => {
                &&& final(link).recv_frame_counter == old(link).recv_frame_counter
                &&& step == Step::<S, ServerResponse<R>>::Report(ServerResponse::Error(e))
            },
        },
{
    match parsed {
        None => Step::Idle,
        Some(Ok(frame)) => match link.receive(frame) {
            Delivery::InOrder(d) => Step::Report(ServerResponse::Received(d)),
            Delivery::OutOfOrder(d) => Step::Report(ServerResponse::ReceivedOutOfOrder(d)),
        },
        Some(Err(e)) => Step::Report(ServerResponse::Error(e)),
    }
}

/// What the worker does with a failed read of the given category: wait on
/// `WouldBlock`, report a disconnection and end, or end with the error.
pub fn read_failure_step<S, R>(kind: ErrorKind, error: std::io::Error) -> (step: Step<S, ServerResponse<R>>)
    ensures
        step == read_failure_spec::<S, R>(kind, error),
        step is Idle <==> kind is WouldBlock,
        kind is NotConnected || kind is ConnectionAborted || kind is ConnectionReset
            ==> step == Step::<S, ServerResponse<R>>::ReportAndStop(ServerResponse::Disconnected),
        !(kind is WouldBlock || kind is NotConnected || kind is ConnectionAborted
            || kind is ConnectionReset) ==> step == Step::<S, ServerResponse<R>>::Fail(NetError::IoError(error)),
{
    match kind {
        ErrorKind::WouldBlock => Step::Idle,
        ErrorKind::NotConnected | ErrorKind::ConnectionAborted | ErrorKind::ConnectionReset => {
            Step::ReportAndStop(ServerResponse::Disconnected)
        },
        _ => Step::Fail(NetError::from(error)),
    }
}

/// What the worker does with a failed read, by the error's category.
pub fn read_error_step<S, R>(error: std::io::Error) -> (step: Step<S, ServerResponse<R>>)
    ensures
        step == read_failure_spec::<S, R>(error_kind_of(error), error),
        step is Idle <==> error_kind_of(error) is WouldBlock,
        ({
            let kind = error_kind_of(error);
            kind is NotConnected || kind is ConnectionAborted || kind is ConnectionReset
        }) ==> step == Step::<S, ServerResponse<R>>::ReportAndStop(ServerResponse::Disconnected),
        ({
            let kind = error_kind_of(error);
            !(kind is WouldBlock || kind is NotConnected || kind is ConnectionAborted
                || kind is ConnectionReset)
        }) ==> step == Step::<S, ServerResponse<R>>::Fail(NetError::IoError(error)),
{
    let kind = io_error_kind(&error);
    read_failure_step(kind, error)
}

/// A parsed frame is reported as received in order exactly when the worker had
/// not heard from the peer yet or the frame carries the expected counter;
/// otherwise it is reported out of order. Either way its data is reported as is.
pub proof fn lemma_report_judges_by_counter<R>(expected: u64, frame: Frame<R>)
    ensures
        (expected == 0 || frame.frame_counter == expected) ==> delivered(expected, frame)
            == ServerResponse::Received(frame.data),
        expected != 0 && frame.frame_counter != expected ==> delivered(expected, frame)
            == ServerResponse::ReceivedOutOfOrder(frame.data),
{
}

/// After a frame with counter `previous`, a frame that does not carry
/// `previous + 1` (one was lost, repeated, or came late) is reported out of order.
pub proof fn lemma_gap_reported_out_of_order<R>(previous: u64, frame: Frame<R>)
    requires
        previous < u64::MAX,
        frame.frame_counter != previous + 1,
    ensures
        delivered((previous + 1) as u64, frame) == ServerResponse::ReceivedOutOfOrder(frame.data),
{
}

/// Every message of the worker reaches the user as the message of the same
/// kind with the same payload, and each answer the user gets comes from
/// exactly that message: an error stays that error, and a disconnection is
/// only reported where the worker reported one.
pub proof fn lemma_response_keeps_messages<R>(polled: Result<ServerResponse<R>, TryRecvError>)
    ensures
        polled matches Ok(ServerResponse::Error(e)) ==> response_spec(polled) == Ok::<ClientResponse<R>, NetError>(ClientResponse::Error(e)),
        polled matches Ok(ServerResponse::Received(d)) ==> response_spec(polled) == Ok::<ClientResponse<R>, NetError>(ClientResponse::Recieved(d)),
        polled matches Ok(ServerResponse::ReceivedOutOfOrder(d)) ==> response_spec(polled)
            == Ok::<ClientResponse<R>, NetError>(ClientResponse::ReceivedOutOfOrder(d)),
        response_spec(polled) matches Ok(ClientResponse::Disconnected) ==> polled matches Ok(ServerResponse::Disconnected),
        response_spec(polled) matches Ok(ClientResponse::Error(e)) ==> polled == Ok::<ServerResponse<R>, TryRecvError>(ServerResponse::Error(e)),
        response_spec(polled) matches Ok(ClientResponse::Nothing) ==> polled matches Err(TryRecvError::Empty),
{
}

/// Only a read that would block leaves the worker idle; a read that finds the
/// peer gone reports the disconnection and ends; any other failed read
/// ends with the I/O error.
pub proof fn lemma_read_failures<S, R>(kind: ErrorKind, error: std::io::Error)
    ensures
        read_failure_spec::<S, R>(kind, error) is Idle <==> kind is WouldBlock,
        kind is NotConnected || kind is ConnectionAborted || kind is ConnectionReset
            ==> read_failure_spec::<S, R>(kind, error) == Step::<S, ServerResponse<R>>::ReportAndStop(ServerResponse::Disconnected),
        !(kind is WouldBlock || kind is NotConnected || kind is ConnectionAborted
            || kind is ConnectionReset) ==> read_failure_spec::<S, R>(kind, error) == Step::<S, ServerResponse<R>>::Fail(NetError::IoError(error)),
{
}

} // verus!
