use xng_rs::port::channel::SamplingChannel;
use xng_rs::port::sampling::{
    read_result, RawSamplingPortStatus, SamplingPortStatus, SamplingReceiver, SamplingSender,
};
use xng_rs::port::{X_INVALID_MESSAGE, X_VALID_MESSAGE};
use xng_rs::time::{Duration, Instant, TimeError};
use xng_rs::{XngError, X_INVALID_PARAM, X_NOT_AVAILABLE, X_NO_ERROR};

fn at(raw: i64) -> Instant {
    Instant::from_raw(raw)
}

#[test]
fn sampling_ports_open_on_channel() {
    let mut ch = SamplingChannel::new(7, 16);
    let rx = SamplingReceiver::<8>::new(&mut ch, Duration::from_micros(100)).unwrap();
    let tx = SamplingSender::<8>::new(&mut ch).unwrap();
    assert_eq!(rx.id(), 7);
    assert_eq!(tx.id(), 7);
}

#[test]
fn sampling_port_larger_than_configured_is_refused() {
    let mut ch = SamplingChannel::new(7, 4);
    assert!(matches!(
        SamplingSender::<8>::new(&mut ch),
        Err(XngError::InvalidConfig)
    ));
    assert!(matches!(
        SamplingReceiver::<8>::new(&mut ch, Duration::from_micros(10)),
        Err(XngError::InvalidConfig)
    ));
}

#[test]
fn receiver_ttl_too_large_for_kernel_time() {
    let mut ch = SamplingChannel::new(7, 16);
    let ttl = Duration::from_secs(u64::MAX);
    assert!(matches!(
        SamplingReceiver::<8>::new(&mut ch, ttl),
        Err(XngError::TimeError(TimeError::InfiniteTime))
    ));
}

#[test]
fn send_too_big_fails_and_leaves_port_untouched() {
    let mut ch = SamplingChannel::new(1, 16);
    let rx = SamplingReceiver::<4>::new(&mut ch, Duration::from_micros(100)).unwrap();
    let tx = SamplingSender::<4>::new(&mut ch).unwrap();
    assert_eq!(
        tx.send(&mut ch, &[1, 2, 3, 4, 5], at(0)),
        Err(XngError::BufTooBig { buf_size: 5, max_allowed: 4 })
    );
    let mut buf = [0u8; 4];
    assert_eq!(rx.recv(&ch, &mut buf, at(1)), Ok(None));
}

#[test]
fn send_too_big_keeps_previous_message() {
    let mut ch = SamplingChannel::new(1, 16);
    let rx = SamplingReceiver::<4>::new(&mut ch, Duration::from_micros(100)).unwrap();
    let tx = SamplingSender::<4>::new(&mut ch).unwrap();
    tx.send(&mut ch, &[9, 8], at(0)).unwrap();
    assert!(tx.send(&mut ch, &[1, 2, 3, 4, 5, 6], at(1)).is_err());
    let mut buf = [0u8; 4];
    assert_eq!(rx.recv(&ch, &mut buf, at(2)), Ok(Some((2, true))));
    assert_eq!(&buf[..2], &[9, 8]);
}

#[test]
fn recv_before_any_send_is_none() {
    let mut ch = SamplingChannel::new(1, 16);
    let rx = SamplingReceiver::<8>::new(&mut ch, Duration::from_micros(100)).unwrap();
    let mut buf = [0xAAu8; 8];
    assert_eq!(rx.recv(&ch, &mut buf, at(0)), Ok(None));
    assert_eq!(buf, [0xAA; 8]);
}

#[test]
fn recv_valid_before_ttl_and_invalid_after() {
    let mut ch = SamplingChannel::new(1, 16);
    let rx = SamplingReceiver::<8>::new(&mut ch, Duration::from_micros(100)).unwrap();
    let tx = SamplingSender::<8>::new(&mut ch).unwrap();
    tx.send(&mut ch, b"hello", at(1000)).unwrap();
    let mut buf = [0u8; 8];
    assert_eq!(rx.recv(&ch, &mut buf, at(1000)), Ok(Some((5, true))));
    assert_eq!(rx.recv(&ch, &mut buf, at(1099)), Ok(Some((5, true))));
    assert_eq!(rx.recv(&ch, &mut buf, at(1100)), Ok(Some((5, false))));
    assert_eq!(rx.recv(&ch, &mut buf, at(5000)), Ok(Some((5, false))));
    assert_eq!(&buf[..5], b"hello");
}

#[test]
fn new_send_refreshes_validity() {
    let mut ch = SamplingChannel::new(1, 16);
    let rx = SamplingReceiver::<8>::new(&mut ch, Duration::from_micros(10)).unwrap();
    let tx = SamplingSender::<8>::new(&mut ch).unwrap();
    tx.send(&mut ch, b"a", at(0)).unwrap();
    let mut buf = [0u8; 8];
    assert_eq!(rx.recv(&ch, &mut buf, at(50)), Ok(Some((1, false))));
    tx.send(&mut ch, b"bc", at(50)).unwrap();
    assert_eq!(rx.recv(&ch, &mut buf, at(55)), Ok(Some((2, true))));
    assert_eq!(&buf[..2], b"bc");
}

#[test]
fn recv_into_small_buffer_fails_untouched() {
    let mut ch = SamplingChannel::new(1, 16);
    let rx = SamplingReceiver::<8>::new(&mut ch, Duration::from_micros(100)).unwrap();
    let tx = SamplingSender::<8>::new(&mut ch).unwrap();
    tx.send(&mut ch, b"hi", at(0)).unwrap();
    let mut buf = [7u8; 7];
    assert_eq!(
        rx.recv(&ch, &mut buf, at(1)),
        Err(XngError::BufTooSmall { buf_size: 7, min_required: 8 })
    );
    assert_eq!(buf, [7u8; 7]);
}

#[test]
fn sampling_round_trip() {
    let mut ch = SamplingChannel::new(3, 8);
    let rx = SamplingReceiver::<8>::new(&mut ch, Duration::from_micros(1000)).unwrap();
    let tx = SamplingSender::<8>::new(&mut ch).unwrap();
    let messages: [&[u8]; 4] = [b"", b"x", b"abcdefgh", &[0, 255, 1, 254]];
    for (i, msg) in messages.iter().enumerate() {
        tx.send(&mut ch, msg, at(i as i64)).unwrap();
        let mut buf = [0x55u8; 12];
        let (len, valid) = rx.recv(&ch, &mut buf, at(i as i64)).unwrap().unwrap();
        assert_eq!(&buf[..len], *msg);
        assert!(valid);
        assert!(buf[len..].iter().all(|b| *b == 0x55));
    }
}

#[test]
fn repeated_reads_return_same_message() {
    let mut ch = SamplingChannel::new(3, 8);
    let rx = SamplingReceiver::<8>::new(&mut ch, Duration::from_micros(1000)).unwrap();
    let tx = SamplingSender::<8>::new(&mut ch).unwrap();
    tx.send(&mut ch, b"same", at(0)).unwrap();
    for t in 0..3 {
        let mut buf = [0u8; 8];
        assert_eq!(rx.recv(&ch, &mut buf, at(t)), Ok(Some((4, true))));
        assert_eq!(&buf[..4], b"same");
    }
}

#[test]
fn sampling_status_before_and_after_send() {
    let mut ch = SamplingChannel::new(3, 8);
    let rx = SamplingReceiver::<8>::new(&mut ch, Duration::from_micros(40)).unwrap();
    let tx = SamplingSender::<8>::new(&mut ch).unwrap();
    let before = rx.status(&ch, at(0)).unwrap();
    assert_eq!(before.refresh_period, Duration::from_micros(40));
    assert_eq!(before.last_message_ts, None);
    assert_eq!(before.last_message_size, 0);
    assert!(!before.last_message_valid);
    tx.send(&mut ch, b"abc", at(10)).unwrap();
    let after = tx.status(&ch, at(20)).unwrap();
    assert_eq!(after.last_message_ts, Some(Duration::from_micros(10)));
    assert_eq!(after.last_message_size, 3);
    assert!(after.last_message_valid);
    let later = rx.status(&ch, at(60)).unwrap();
    assert!(!later.last_message_valid);
}

#[test]
fn read_result_interprets_kernel_answer() {
    assert_eq!(read_result(X_NOT_AVAILABLE, 0, 0), Ok(None));
    assert_eq!(read_result(X_NO_ERROR, 5, X_VALID_MESSAGE), Ok(Some((5, true))));
    assert_eq!(read_result(X_NO_ERROR, 3, X_INVALID_MESSAGE), Ok(Some((3, false))));
    assert_eq!(read_result(X_INVALID_PARAM, 3, 0), Err(XngError::InvalidParam));
    assert_eq!(read_result(77, 3, 0), Err(XngError::UnknownReturnCode(77)));
}

#[test]
fn receiver_config_and_creation_answer() {
    let config = SamplingReceiver::<8>::config(Duration::from_millis(2)).unwrap();
    assert_eq!(config.max_message_size, 8);
    assert_eq!(config.refresh_period, 2000);
    let sender_config = SamplingSender::<8>::config();
    assert_eq!(sender_config.refresh_period, 1);
    assert_eq!(SamplingReceiver::<8>::from_created(X_NO_ERROR, 4).unwrap().id(), 4);
    assert!(matches!(
        SamplingSender::<8>::from_created(X_INVALID_PARAM, 4),
        Err(XngError::InvalidParam)
    ));
}

#[test]
fn status_from_raw_answer() {
    let raw = RawSamplingPortStatus {
        refresh_period: 500,
        last_message_timestamp: -1,
        last_message_size: 0,
        last_message_validity: X_INVALID_MESSAGE,
    };
    let status = SamplingPortStatus::new(X_NO_ERROR, raw).unwrap();
    assert_eq!(status.refresh_period, Duration::from_micros(500));
    assert_eq!(status.last_message_ts, None);
    let bad = RawSamplingPortStatus { refresh_period: -1, ..raw };
    assert_eq!(
        SamplingPortStatus::new(X_NO_ERROR, bad),
        Err(XngError::TimeError(TimeError::InfiniteTime))
    );
    assert_eq!(
        SamplingPortStatus::new(X_NOT_AVAILABLE, raw),
        Err(XngError::NotAvailable)
    );
}

#[test]
fn sender_on_other_port_is_refused() {
    let mut ch = SamplingChannel::new(3, 8);
    let rx = SamplingReceiver::<8>::new(&mut ch, Duration::from_micros(40)).unwrap();
    let stranger = SamplingSender::<8>::from_created(X_NO_ERROR, 4).unwrap();
    assert_eq!(stranger.send(&mut ch, b"x", at(0)), Err(XngError::InvalidParam));
    let mut buf = [0u8; 8];
    assert_eq!(rx.recv(&ch, &mut buf, at(0)), Ok(None));
}
