use network_test::link::{Link, Step};
use network_test::server::{
    bind_failure, bind_report, command_step, frame_step, read_error_step, read_failure_step,
    require_running, response_for, shutdown_result, start_failure, start_step, AcceptLoop,
    AcceptStep, ServerCommand, ServerResponse, StartStep,
};
use network_test::{ClientResponse, Frame, NetError};
use std::io::{Error, ErrorKind};
use std::sync::mpsc::{RecvError, TryRecvError};

type ServerStep = Step<u64, ServerResponse<u64>>;

#[test]
fn server_require_running() {
    assert!(require_running(true).is_ok());
    assert!(matches!(require_running(false), Err(NetError::NotRunning)));
}

#[test]
fn server_response_for_each_message() {
    assert!(matches!(response_for(Ok(ServerResponse::Received(5u64))), Ok(ClientResponse::Recieved(5))));
    assert!(matches!(
        response_for(Ok(ServerResponse::ReceivedOutOfOrder(6u64))),
        Ok(ClientResponse::ReceivedOutOfOrder(6))
    ));
    assert!(matches!(
        response_for::<u64>(Ok(ServerResponse::Error(NetError::MutexPoisoned))),
        Ok(ClientResponse::Error(NetError::MutexPoisoned))
    ));
    assert!(matches!(response_for::<u64>(Ok(ServerResponse::Disconnected)), Ok(ClientResponse::Disconnected)));
    assert!(matches!(response_for::<u64>(Ok(ServerResponse::BindSuccessful)), Err(NetError::UnexpectedResponse)));
    assert!(matches!(response_for::<u64>(Ok(ServerResponse::BindFailed)), Err(NetError::UnexpectedResponse)));
    assert!(matches!(response_for::<u64>(Err(TryRecvError::Empty)), Ok(ClientResponse::Nothing)));
    assert!(matches!(response_for::<u64>(Err(TryRecvError::Disconnected)), Err(NetError::ChannelDisconnected)));
}

#[test]
fn server_start_steps() {
    assert!(matches!(start_step::<u64>(Ok(ServerResponse::BindSuccessful)), StartStep::Running));
    assert!(matches!(start_step::<u64>(Ok(ServerResponse::BindFailed)), StartStep::BindFailed));
    assert!(matches!(start_step::<u64>(Ok(ServerResponse::Received(1))), StartStep::Running));
    assert!(matches!(start_step::<u64>(Err(RecvError)), StartStep::Fail(NetError::ChannelDisconnected)));
}

#[test]
fn server_bind_protocol() {
    assert!(matches!(bind_report::<u64>(true), ServerResponse::BindSuccessful));
    assert!(matches!(bind_report::<u64>(false), ServerResponse::BindFailed));
    assert!(matches!(bind_failure(), Err(NetError::BindError)));
    // a listener that cannot bind makes `start` fail with its BindError
    assert!(matches!(start_step::<u64>(Ok(bind_report(false))), StartStep::BindFailed));
    assert!(matches!(start_failure(Ok(bind_failure())), NetError::BindError));
    match start_failure(Err("listener panicked".to_string())) {
        NetError::JoinError(m) => assert_eq!(m, "listener panicked"),
        e => panic!("unexpected {:?}", e),
    }
}

#[test]
fn server_shutdown_results() {
    assert!(matches!(shutdown_result(None), Err(NetError::NotRunning)));
    assert!(shutdown_result(Some(Ok(Ok(())))).is_ok());
    assert!(matches!(shutdown_result(Some(Ok(Err(NetError::BindError)))), Err(NetError::BindError)));
    assert!(matches!(shutdown_result(Some(Err("x".to_string()))), Err(NetError::JoinError(_))));
}

#[test]
fn accept_loop_serves_one_client_at_a_time() {
    let mut l = AcceptLoop::new();
    assert!(!l.client_running);
    assert!(matches!(l.on_incoming(false), AcceptStep::Ignore));
    assert!(!l.client_running);
    assert!(matches!(l.on_incoming(true), AcceptStep::Start));
    assert!(l.client_running);
    assert!(matches!(l.on_incoming(false), AcceptStep::Ignore));
    assert!(l.client_running);
    assert!(matches!(l.on_incoming(true), AcceptStep::ReplaceThenStart));
    assert!(l.client_running);
    assert!(l.on_replaced(Ok(Ok(()))).is_ok());
    assert!(matches!(l.on_replaced(Ok(Err(NetError::ChannelDisconnected))), Err(NetError::ChannelDisconnected)));
    assert!(matches!(l.on_replaced(Err("panic".to_string())), Err(NetError::JoinError(_))));
}

#[test]
fn server_command_steps() {
    let mut link = Link::new();
    link.frame_sent();
    let s: ServerStep = command_step(&link, Ok(ServerCommand::Send(7u64)));
    assert!(matches!(s, Step::Write(Frame { frame_counter: 1, data: 7 })));
    let s: ServerStep = command_step(&link, Ok(ServerCommand::Shutdown));
    assert!(matches!(s, Step::Shutdown));
    let s: ServerStep = command_step(&link, Err(TryRecvError::Empty));
    assert!(matches!(s, Step::Idle));
    let s: ServerStep = command_step(&link, Err(TryRecvError::Disconnected));
    assert!(matches!(s, Step::Fail(NetError::ChannelDisconnected)));
}

#[test]
fn server_frame_steps() {
    let mut link = Link::new();
    let s: ServerStep = frame_step(&mut link, Some(Ok(Frame { frame_counter: 3, data: 30u64 })));
    assert!(matches!(s, Step::Report(ServerResponse::Received(30))));
    let s: ServerStep = frame_step(&mut link, Some(Ok(Frame { frame_counter: 4, data: 40u64 })));
    assert!(matches!(s, Step::Report(ServerResponse::Received(40))));
    let s: ServerStep = frame_step(&mut link, Some(Ok(Frame { frame_counter: 4, data: 41u64 })));
    assert!(matches!(s, Step::Report(ServerResponse::ReceivedOutOfOrder(41))));
    let s: ServerStep = frame_step(&mut link, Some(Err(NetError::NotRunning)));
    assert!(matches!(s, Step::Report(ServerResponse::Error(NetError::NotRunning))));
    assert_eq!(link.recv_frame_counter, 5);
    let s: ServerStep = frame_step(&mut link, None);
    assert!(matches!(s, Step::Idle));
    assert_eq!(link.recv_frame_counter, 5);
}

#[test]
fn server_read_failures() {
    let s: ServerStep = read_failure_step(ErrorKind::WouldBlock, Error::new(ErrorKind::WouldBlock, "x"));
    assert!(matches!(s, Step::Idle));
    for k in [ErrorKind::NotConnected, ErrorKind::ConnectionAborted, ErrorKind::ConnectionReset] {
        let s: ServerStep = read_failure_step(k, Error::new(k, "gone"));
        assert!(matches!(s, Step::ReportAndStop(ServerResponse::Disconnected)));
    }
    let s: ServerStep = read_failure_step(ErrorKind::UnexpectedEof, Error::new(ErrorKind::UnexpectedEof, "eof"));
    match s {
        Step::Fail(NetError::IoError(e)) => assert_eq!(e.kind(), ErrorKind::UnexpectedEof),
        _ => panic!("expected failure"),
    }
    let s: ServerStep = read_error_step(Error::new(ErrorKind::ConnectionAborted, "aborted"));
    assert!(matches!(s, Step::ReportAndStop(ServerResponse::Disconnected)));
    let s: ServerStep = read_error_step(Error::new(ErrorKind::Other, "other"));
    assert!(matches!(s, Step::Fail(NetError::IoError(_))));
}
