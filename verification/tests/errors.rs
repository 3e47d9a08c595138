use network_test::{join_result, NetError};
use std::io::{Error, ErrorKind};
use std::sync::mpsc::{channel, RecvError};
use std::sync::{Mutex, PoisonError};

#[test]
fn net_error_from_io_error() {
    match NetError::from(Error::new(ErrorKind::Other, "io")) {
        NetError::IoError(e) => assert_eq!(e.kind(), ErrorKind::Other),
        e => panic!("unexpected {:?}", e),
    }
}

#[test]
fn net_error_from_channel_errors() {
    let (tx, rx) = channel::<u8>();
    drop(rx);
    let send_err = tx.send(1).unwrap_err();
    assert!(matches!(NetError::from(send_err), NetError::ChannelDisconnected));
    assert!(matches!(NetError::from(RecvError), NetError::ChannelDisconnected));
}

#[test]
fn net_error_from_poison() {
    let m = Mutex::new(0u8);
    let e = PoisonError::new(m.lock().unwrap());
    assert!(matches!(NetError::from(e), NetError::MutexPoisoned));
}

#[test]
fn join_results() {
    assert!(join_result(Ok(Ok(()))).is_ok());
    assert!(matches!(join_result(Ok(Err(NetError::NotRunning))), Err(NetError::NotRunning)));
    match join_result(Err("worker died".to_string())) {
        Err(NetError::JoinError(m)) => assert_eq!(m, "worker died"),
        r => panic!("unexpected {:?}", r),
    }
}
