use pingpong::{
    LoopbackChannel, MessageBuffer, OsErrorKind, ReadStep, Sender, TransportError, busy_read_step,
    classify_error, read_busy_until_some,
};

#[test]
fn echo_round_trip_delivers_same_bytes() {
    let mut ch = LoopbackChannel::new();
    let msg: Vec<u8> = vec![10, 20, 30, 40, 50];
    assert_eq!(ch.send_data(&msg), Ok(5));
    let mut buf: Vec<u8> = vec![0; 5];
    assert_eq!(ch.recv_data(&mut buf), Ok(5));
    assert_eq!(buf, msg);
}

#[test]
fn short_receive_keeps_remainder_in_order() {
    let mut ch = LoopbackChannel::new();
    let msg: Vec<u8> = vec![1, 2, 3, 4];
    assert_eq!(ch.send_data(&msg), Ok(4));
    let mut buf: Vec<u8> = vec![0; 3];
    assert_eq!(ch.recv_data(&mut buf), Ok(3));
    assert_eq!(buf, vec![1, 2, 3]);
    assert_eq!(ch.recv_data(&mut buf), Ok(1));
    assert_eq!(buf, vec![4, 2, 3]);
}

#[test]
fn busy_receive_on_empty_endpoint_is_transient() {
    let mut ch = LoopbackChannel::new();
    assert_eq!(ch.set_busy(true), Ok(()));
    let mut buf: Vec<u8> = vec![0; 8];
    assert_eq!(
        ch.recv_data(&mut buf),
        Err(TransportError::TransientUnavailable)
    );
}

#[test]
fn closed_peer_reads_as_zero_length_success() {
    let mut ch = LoopbackChannel::new();
    ch.close_peer();
    let mut buf: Vec<u8> = vec![0; 8];
    assert_eq!(ch.recv_data(&mut buf), Ok(0));
    assert_eq!(read_busy_until_some(&mut ch, &mut buf), Ok(0));
}

#[test]
fn closed_peer_drains_pending_data_before_closure() {
    let mut ch = LoopbackChannel::new();
    let msg: Vec<u8> = vec![7, 7];
    assert_eq!(ch.send_data(&msg), Ok(2));
    ch.close_peer();
    let mut buf: Vec<u8> = vec![0; 2];
    assert_eq!(read_busy_until_some(&mut ch, &mut buf), Ok(2));
    assert_eq!(buf, vec![7, 7]);
    assert_eq!(read_busy_until_some(&mut ch, &mut buf), Ok(0));
}

#[test]
fn send_to_closed_peer_is_fatal() {
    let mut ch = LoopbackChannel::new();
    ch.close_peer();
    let msg: Vec<u8> = vec![1];
    assert_eq!(ch.send_data(&msg), Err(TransportError::Fatal));
}

#[test]
fn driver_decision_per_outcome() {
    assert_eq!(busy_read_step(Ok(17)), ReadStep::Deliver(17));
    assert_eq!(
        busy_read_step(Err(TransportError::TransientUnavailable)),
        ReadStep::Retry
    );
    assert_eq!(
        busy_read_step(Err(TransportError::PeerClosed)),
        ReadStep::Deliver(0)
    );
    assert_eq!(busy_read_step(Err(TransportError::Fatal)), ReadStep::Fail);
}

#[test]
fn stream_busypoll_echo_of_64_bytes() {
    let mut ch = LoopbackChannel::new();
    assert_eq!(ch.set_busy(true), Ok(()));
    let payload = MessageBuffer::new(64, 0xab).unwrap();
    assert_eq!(payload.len(), 64);
    assert_eq!(ch.send_data(payload.as_vec()), Ok(64));
    let mut buf: Vec<u8> = vec![0; 64];
    assert_eq!(read_busy_until_some(&mut ch, &mut buf), Ok(64));
    assert_eq!(buf, vec![0xab; 64]);
}

#[test]
fn busy_toggle_is_idempotent_and_keeps_data() {
    let mut ch = LoopbackChannel::new();
    let msg: Vec<u8> = vec![5];
    assert_eq!(ch.send_data(&msg), Ok(1));
    assert_eq!(ch.set_busy(true), Ok(()));
    assert_eq!(ch.set_busy(true), Ok(()));
    assert_eq!(ch.set_busy(false), Ok(()));
    let mut buf: Vec<u8> = vec![0; 1];
    assert_eq!(ch.recv_data(&mut buf), Ok(1));
    assert_eq!(buf, vec![5]);
}

#[test]
fn error_kind_classification() {
    assert_eq!(
        classify_error(OsErrorKind::WouldBlock),
        TransportError::TransientUnavailable
    );
    assert_eq!(
        classify_error(OsErrorKind::ConnectionReset),
        TransportError::PeerClosed
    );
    assert_eq!(classify_error(OsErrorKind::Other), TransportError::Fatal);
}
