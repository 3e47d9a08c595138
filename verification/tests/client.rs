use network_test::client::{
    command_step, connect_error, connect_failure, frame_step, read_error_step, read_failure_step,
    require_running, response_for, shutdown_result, ClientCommand, ClientResponse,
};
use network_test::link::{Link, Step};
use network_test::{Frame, NetError, ServerResponse};
use std::io::{Error, ErrorKind};
use std::sync::mpsc::TryRecvError;

type ClientStep = Step<u64, ClientResponse<u64>>;

#[test]
fn client_require_running() {
    assert!(require_running(true).is_ok());
    assert!(matches!(require_running(false), Err(NetError::NotRunning)));
}

#[test]
fn client_response_for_each_message() {
    assert!(matches!(response_for(Ok(ClientResponse::Received(5u64))), Ok(ServerResponse::Received(5))));
    assert!(matches!(
        response_for(Ok(ClientResponse::ReceivedOutOfOrder(6u64))),
        Ok(ServerResponse::ReceivedOutOfOrder(6))
    ));
    assert!(matches!(
        response_for::<u64>(Ok(ClientResponse::Error(NetError::BindError))),
        Ok(ServerResponse::Error(NetError::BindError))
    ));
    assert!(matches!(response_for::<u64>(Ok(ClientResponse::Disconnected)), Ok(ServerResponse::Disconnected)));
    assert!(matches!(response_for::<u64>(Err(TryRecvError::Empty)), Ok(ServerResponse::Nothing)));
    assert!(matches!(response_for::<u64>(Err(TryRecvError::Disconnected)), Err(NetError::ChannelDisconnected)));
}

#[test]
fn client_connect_errors() {
    let refused = Error::new(ErrorKind::ConnectionRefused, "refused");
    assert!(matches!(connect_error(refused), NetError::ConnectionRefused));
    let other = Error::new(ErrorKind::AddrNotAvailable, "no address");
    match connect_error(other) {
        NetError::IoError(e) => assert_eq!(e.kind(), ErrorKind::AddrNotAvailable),
        e => panic!("unexpected {:?}", e),
    }
    assert!(matches!(
        connect_failure(ErrorKind::ConnectionRefused, Error::new(ErrorKind::Other, "x")),
        NetError::ConnectionRefused
    ));
    assert!(matches!(
        connect_failure(ErrorKind::TimedOut, Error::new(ErrorKind::TimedOut, "x")),
        NetError::IoError(_)
    ));
}

#[test]
fn client_shutdown_results() {
    assert!(matches!(shutdown_result(None), Err(NetError::NotRunning)));
    assert!(shutdown_result(Some(Ok(Ok(())))).is_ok());
    assert!(matches!(shutdown_result(Some(Ok(Err(NetError::ChannelDisconnected)))), Err(NetError::ChannelDisconnected)));
    match shutdown_result(Some(Err("boom".to_string()))) {
        Err(NetError::JoinError(m)) => assert_eq!(m, "boom"),
        r => panic!("unexpected {:?}", r),
    }
}

#[test]
fn client_command_steps() {
    let mut link = Link::new();
    link.frame_sent();
    link.frame_sent();
    let s: ClientStep = command_step(&link, Ok(ClientCommand::Send(99u64)));
    match s {
        Step::Write(Frame { frame_counter, data }) => {
            assert_eq!(frame_counter, 2);
            assert_eq!(data, 99);
        }
        _ => panic!("expected a write"),
    }
    let s: ClientStep = command_step(&link, Ok(ClientCommand::Shutdown));
    assert!(matches!(s, Step::Shutdown));
    let s: ClientStep = command_step(&link, Err(TryRecvError::Empty));
    assert!(matches!(s, Step::Idle));
    let s: ClientStep = command_step(&link, Err(TryRecvError::Disconnected));
    assert!(matches!(s, Step::Fail(NetError::ChannelDisconnected)));
}

#[test]
fn client_frame_steps() {
    let mut link = Link::new();
    let s: ClientStep = frame_step(&mut link, Some(Ok(Frame { frame_counter: 0, data: 10u64 })));
    assert!(matches!(s, Step::Report(ClientResponse::Received(10))));
    let s: ClientStep = frame_step(&mut link, Some(Ok(Frame { frame_counter: 1, data: 11u64 })));
    assert!(matches!(s, Step::Report(ClientResponse::Received(11))));
    let s: ClientStep = frame_step(&mut link, Some(Ok(Frame { frame_counter: 5, data: 15u64 })));
    assert!(matches!(s, Step::Report(ClientResponse::ReceivedOutOfOrder(15))));
    assert_eq!(link.recv_frame_counter, 6);
    let s: ClientStep = frame_step(&mut link, Some(Err(NetError::UnexpectedResponse)));
    assert!(matches!(s, Step::Report(ClientResponse::Error(NetError::UnexpectedResponse))));
    assert_eq!(link.recv_frame_counter, 6);
    assert_eq!(link.send_frame_counter, 0);
    let s: ClientStep = frame_step(&mut link, None);
    assert!(matches!(s, Step::Idle));
    assert_eq!(link.recv_frame_counter, 6);
}

#[test]
fn client_read_failures() {
    let s: ClientStep = read_failure_step(ErrorKind::WouldBlock, Error::new(ErrorKind::WouldBlock, "x"));
    assert!(matches!(s, Step::Idle));
    for k in [ErrorKind::NotConnected, ErrorKind::ConnectionAborted, ErrorKind::ConnectionReset] {
        let s: ClientStep = read_failure_step(k, Error::new(k, "gone"));
        assert!(matches!(s, Step::ReportAndStop(ClientResponse::Disconnected)));
    }
    let s: ClientStep = read_failure_step(ErrorKind::InvalidData, Error::new(ErrorKind::InvalidData, "bad"));
    match s {
        Step::ReportAndStop(ClientResponse::Error(NetError::IoError(e))) => assert_eq!(e.kind(), ErrorKind::InvalidData),
        _ => panic!("expected an error report"),
    }
    let s: ClientStep = read_error_step(Error::new(ErrorKind::ConnectionReset, "reset"));
    assert!(matches!(s, Step::ReportAndStop(ClientResponse::Disconnected)));
    let s: ClientStep = read_error_step(Error::new(ErrorKind::WouldBlock, "later"));
    assert!(matches!(s, Step::Idle));
    let s: ClientStep = read_error_step(Error::new(ErrorKind::PermissionDenied, "no"));
    assert!(matches!(s, Step::ReportAndStop(ClientResponse::Error(NetError::IoError(_)))));
}
