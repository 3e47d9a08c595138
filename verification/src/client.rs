//! The client: what its worker does with each event of its connection, and
//! what the user's end of a client makes of its worker's messages.
use vstd::prelude::*;
use std::sync::mpsc::TryRecvError;
use std::io::ErrorKind;
use crate::{Frame, NetError, NetResult, io_error_kind, is_disconnect, error_kind_of};
pub use crate::{require_running, shutdown_result};
use crate::link::{Link, Delivery, Step, in_order};

verus! {

/// What the user of a client hears from the server.
#[derive(Debug)]
pub enum ServerResponse<R> {
    /// Nothing has arrived.
    Nothing,
    /// Data that arrived in order.
    Received(R),
    /// Data whose frame was not the one expected.
    ReceivedOutOfOrder(R),
    /// An error in the connection.
    Error(NetError),
    /// The server went away.
    Disconnected,
}

/// Commands from the user's end of a client to its worker.
pub enum ClientCommand<S> {
    Shutdown,
    Send(S),
}

/// Messages from a client's worker to the user's end.
pub enum ClientResponse<R> {
    Received(R),
    ReceivedOutOfOrder(R),
    Error(NetError),
    Disconnected,
}

/// The worker's message for a frame judged by `in_order`.
pub open spec fn delivered<R>(expected: u64, frame: Frame<R>) -> ClientResponse<R> {
    if in_order(expected, frame.frame_counter) {
        ClientResponse::Received(frame.data)
    } else {
        ClientResponse::ReceivedOutOfOrder(frame.data)
    }
}

/// What the user hears for a message (or the lack of one) from the worker.
pub open spec fn response_spec<R>(polled: Result<ClientResponse<R>, TryRecvError>) -> NetResult<ServerResponse<R>> {
    match polled {
        Ok(ClientResponse::Received(r)) => Ok(ServerResponse::Received(r)),
        Ok(ClientResponse::ReceivedOutOfOrder(r)) => Ok(ServerResponse::ReceivedOutOfOrder(r)),
        Ok(ClientResponse::Error(e)) => Ok(ServerResponse::Error(e)),
        Ok(ClientResponse::Disconnected) => Ok(ServerResponse::Disconnected),
        Err(TryRecvError::Empty) => Ok(ServerResponse::Nothing),
        Err(TryRecvError::Disconnected) => Err(NetError::ChannelDisconnected),
    }
}

/// What the worker does with a failed read of the given category.
pub open spec fn read_failure_spec<S, R>(kind: ErrorKind, error: std::io::Error) -> Step<S, ClientResponse<R>> {
    if kind is WouldBlock {
        Step::Idle
    } else if is_disconnect(kind) {
        Step::ReportAndStop(ClientResponse::Disconnected)
    } else {
        Step::ReportAndStop(ClientResponse::Error(NetError::IoError(error)))
    }
}

/// What the user hears, given what polling the worker's channel gave.
pub fn response_for<R>(polled: Result<ClientResponse<R>, TryRecvError>) -> (r: NetResult<ServerResponse<R>>)
    ensures
        r == response_spec(polled),
        polled matches Ok(ClientResponse::Error(e)) ==> r == Ok::<ServerResponse<R>, NetError>(ServerResponse::Error(e)),
        polled matches Ok(ClientResponse::Received(d)) ==> r == Ok::<ServerResponse<R>, NetError>(ServerResponse::Received(d)),
        polled matches Ok(ClientResponse::ReceivedOutOfOrder(d)) ==> r == Ok::<ServerResponse<R>, NetError>(ServerResponse::ReceivedOutOfOrder(d)),
        r matches Ok(ServerResponse::Disconnected) ==> polled matches Ok(ClientResponse::Disconnected),
        r matches Ok(ServerResponse::Error(e)) ==> polled == Ok::<ClientResponse<R>, TryRecvError>(ClientResponse::Error(e)),
        r matches Ok(ServerResponse::Received(d)) ==> polled == Ok::<ClientResponse<R>, TryRecvError>(ClientResponse::Received(d)),
        r matches Ok(ServerResponse::ReceivedOutOfOrder(d)) ==> polled == Ok::<ClientResponse<R>, TryRecvError>(ClientResponse::ReceivedOutOfOrder(d)),
        r matches Ok(ServerResponse::Nothing) ==> polled matches Err(TryRecvError::Empty),
{
    match polled {
        Ok(ClientResponse::Received(r)) => Ok(ServerResponse::Received(r)),
        Ok(ClientResponse::ReceivedOutOfOrder(r)) => Ok(ServerResponse::ReceivedOutOfOrder(r)),
        Ok(ClientResponse::Error(e)) => Ok(ServerResponse::Error(e)),
        Ok(ClientResponse::Disconnected) => Ok(ServerResponse::Disconnected),
        Err(TryRecvError::Empty) => Ok(ServerResponse::Nothing),
        Err(TryRecvError::Disconnected) => Err(NetError::ChannelDisconnected),
    }
}

/// The error a failed connection attempt of the given category reports.
pub open spec fn connect_failure_spec(kind: ErrorKind, error: std::io::Error) -> NetError {
    if kind is ConnectionRefused {
        NetError::ConnectionRefused
    } else {
        NetError::IoError(error)
    }
}

/// The error a failed connection attempt of the given category reports.
pub fn connect_failure(kind: ErrorKind, error: std::io::Error) -> (e: NetError)
    ensures
        kind is ConnectionRefused ==> e is ConnectionRefused,
        !(kind is ConnectionRefused) ==> e == NetError::IoError(error),
{
    match kind {
        ErrorKind::ConnectionRefused => NetError::ConnectionRefused,
        _ => NetError::IoError(error),
    }
}

/// The error a failed connection attempt reports: a refusal where the error's
/// category is `ConnectionRefused`, else the I/O error itself.
pub fn connect_error(error: std::io::Error) -> (e: NetError)
    ensures
        e == connect_failure_spec(error_kind_of(error), error),
{
    let kind = io_error_kind(&error);
    connect_failure(kind, error)
}

/// What the worker does with what polling the command channel gave.
pub fn command_step<S, R>(link: &Link, cmd: Result<ClientCommand<S>, TryRecvError>) -> (step: Step<S, ClientResponse<R>>)
    ensures
        match cmd {
            Ok(ClientCommand::Shutdown) => step is Shutdown,
            Ok(ClientCommand::Send(d)) => step == Step::<S, ClientResponse<R>>::Write(
                (Frame { frame_counter: link.send_frame_counter, data: d }),
            ),
            Err(TryRecvError::Empty) => step is Idle,
            Err(TryRecvError::Disconnected) => step == Step::<S, ClientResponse<R>>::Fail(NetError::ChannelDisconnected),
        },
{
    match cmd {
        Ok(ClientCommand::Shutdown) => Step::Shutdown,
        Ok(ClientCommand::Send(d)) => Step::Write(link.frame_for(d)),
        Err(TryRecvError::Empty) => Step::Idle,
        Err(TryRecvError::Disconnected) => Step::Fail(NetError::ChannelDisconnected),
    }
}

/// What the worker does with what a successful read gave: `None` where the
/// read gave no bytes (nothing to do), else the bytes parsed into a frame (or
/// the parse error).
pub fn frame_step<S, R>(link: &mut Link, parsed: Option<NetResult<Frame<R>>>) -> (step: Step<S, ClientResponse<R>>)
    requires
        parsed matches Some(Ok(f)) ==> f.frame_counter < u64::MAX,
    ensures
        final(link).send_frame_counter == old(link).send_frame_counter,
        parsed matches Some(Ok(f)) ==> {
            &&& (old(link).recv_frame_counter == 0 || f.frame_counter == old(link).recv_frame_counter)
                ==> step == Step::<S, ClientResponse<R>>::Report(ClientResponse::Received(f.data))
            &&& (old(link).recv_frame_counter != 0 && f.frame_counter != old(link).recv_frame_counter)
                ==> step == Step::<S, ClientResponse<R>>::Report(ClientResponse::ReceivedOutOfOrder(f.data))
        },
        match parsed {
            None => {
                &&& final(link).recv_frame_counter == old(link).recv_frame_counter
                &&& step is Idle
            },
            Some(Ok(f)) => {
                &&& final(link).recv_frame_counter == f.frame_counter + 1
                &&& step == Step::<S, ClientResponse<R>>::Report(delivered(old(link).recv_frame_counter, f))
            },
            Some(Err(e)) => {
                &&& final(link).recv_frame_counter == old(link).recv_frame_counter
                &&& step == Step::<S, ClientResponse<R>>::Report(ClientResponse::Error(e))
            },
        },
{
    match parsed {
        None => Step::Idle,
        Some(Ok(frame)) => match link.receive(frame) {
            Delivery::InOrder(d) => Step::Report(ClientResponse::Received(d)),
            Delivery::OutOfOrder(d) => Step::Report(ClientResponse::ReceivedOutOfOrder(d)),
        },
        Some(Err(e)) => Step::Report(ClientResponse::Error(e)),
    }
}

/// What the worker does with a failed read of the given category: wait on
/// `WouldBlock`, report a disconnection, or report the error; both reports end
/// the worker.
pub fn read_failure_step<S, R>(kind: ErrorKind, error: std::io::Error) -> (step: Step<S, ClientResponse<R>>)
    ensures
        step == read_failure_spec::<S, R>(kind, error),
        step is Idle <==> kind is WouldBlock,
        kind is NotConnected || kind is ConnectionAborted || kind is ConnectionReset
            ==> step == Step::<S, ClientResponse<R>>::ReportAndStop(ClientResponse::Disconnected),
        !(kind is WouldBlock || kind is NotConnected || kind is ConnectionAborted
            || kind is ConnectionReset) ==> step == Step::<S, ClientResponse<R>>::ReportAndStop(ClientResponse::Error(NetError::IoError(error))),
{
    match kind {
        ErrorKind::WouldBlock => Step::Idle,
        ErrorKind::NotConnected | ErrorKind::ConnectionAborted | ErrorKind::ConnectionReset => {
            Step::ReportAndStop(ClientResponse::Disconnected)
        },
        _ => Step::ReportAndStop(ClientResponse::Error(NetError::IoError(error))),
    }
}

/// What the worker does with a failed read, by the error's category.
pub fn read_error_step<S, R>(error: std::io::Error) -> (step: Step<S, ClientResponse<R>>)
    ensures
        step == read_failure_spec::<S, R>(error_kind_of(error), error),
        step is Idle <==> error_kind_of(error) is WouldBlock,
        ({
            let kind = error_kind_of(error);
            kind is NotConnected || kind is ConnectionAborted || kind is ConnectionReset
        }) ==> step == Step::<S, ClientResponse<R>>::ReportAndStop(ClientResponse::Disconnected),
        ({
            let kind = error_kind_of(error);
            !(kind is WouldBlock || kind is NotConnected || kind is ConnectionAborted
                || kind is ConnectionReset)
        }) ==> step == Step::<S, ClientResponse<R>>::ReportAndStop(ClientResponse::Error(NetError::IoError(error))),
{
    let kind = io_error_kind(&error);
    read_failure_step(kind, error)
}

/// A parsed frame is reported as received in order exactly when the worker had
/// not heard from the peer yet or the frame carries the expected counter;
/// otherwise it is reported out of order. Either way its data is reported as is.
pub proof fn lemma_report_judges_by_counter<R>(expected: u64, frame: Frame<R>)
    ensures
        (expected == 0 || frame.frame_counter == expected) ==> delivered(expected, frame)
            == ClientResponse::Received(frame.data),
        expected != 0 && frame.frame_counter != expected ==> delivered(expected, frame)
            == ClientResponse::ReceivedOutOfOrder(frame.data),
{
}

/// After a frame with counter `previous`, a frame that does not carry
/// `previous + 1` (one was lost, repeated, or came late) is reported out of order.
pub proof fn lemma_gap_reported_out_of_order<R>(previous: u64, frame: Frame<R>)
    requires
        previous < u64::MAX,
        frame.frame_counter != previous + 1,
    ensures
        delivered((previous + 1) as u64, frame) == ClientResponse::ReceivedOutOfOrder(frame.data),
{
}

/// Every message of the worker reaches the user as the message of the same
/// kind with the same payload, and each answer the user gets comes from
/// exactly that message: an error stays that error, and a disconnection is
/// only reported where the worker reported one.
pub proof fn lemma_response_keeps_messages<R>(polled: Result<ClientResponse<R>, TryRecvError>)
    ensures
        polled matches Ok(ClientResponse::Error(e)) ==> response_spec(polled) == Ok::<ServerResponse<R>, NetError>(ServerResponse::Error(e)),
        polled matches Ok(ClientResponse::Received(d)) ==> response_spec(polled) == Ok::<ServerResponse<R>, NetError>(ServerResponse::Received(d)),
        polled matches Ok(ClientResponse::ReceivedOutOfOrder(d)) ==> response_spec(polled)
            == Ok::<ServerResponse<R>, NetError>(ServerResponse::ReceivedOutOfOrder(d)),
        response_spec(polled) matches Ok(ServerResponse::Disconnected) ==> polled matches Ok(ClientResponse::Disconnected),
        response_spec(polled) matches Ok(ServerResponse::Error(e)) ==> polled == Ok::<ClientResponse<R>, TryRecvError>(ClientResponse::Error(e)),
        response_spec(polled) matches Ok(ServerResponse::Nothing) ==> polled matches Err(TryRecvError::Empty),
{
}

/// Only a read that would block leaves the worker idle; a read that finds the
/// peer gone reports the disconnection and ends; any other failed read
/// reports the I/O error and ends.
pub proof fn lemma_read_failures<S, R>(kind: ErrorKind, error: std::io::Error)
    ensures
        read_failure_spec::<S, R>(kind, error) is Idle <==> kind is WouldBlock,
        kind is NotConnected || kind is ConnectionAborted || kind is ConnectionReset
            ==> read_failure_spec::<S, R>(kind, error) == Step::<S, ClientResponse<R>>::ReportAndStop(ClientResponse::Disconnected),
        !(kind is WouldBlock || kind is NotConnected || kind is ConnectionAborted
            || kind is ConnectionReset) ==> read_failure_spec::<S, R>(kind, error) == Step::<S, ClientResponse<R>>::ReportAndStop(ClientResponse::Error(NetError::IoError(error))),
{
}

} // verus!
