use xng_rs::health::hm_message;
use xng_rs::port::{
    check_recv_size, check_send_size, validity_to_bool, PortDirection, X_DESTINATION_PORT,
    X_INVALID_MESSAGE, X_SOURCE_PORT, X_VALID_MESSAGE,
};
use xng_rs::vcpu::{VCpuState, X_VCPU_READY, X_VCPU_WAITING};
use xng_rs::XngError;

#[test]
fn validity_codes() {
    assert!(validity_to_bool(X_VALID_MESSAGE));
    assert!(!validity_to_bool(X_INVALID_MESSAGE));
}

#[test]
fn direction_codes() {
    assert_eq!(PortDirection::Source.code(), X_SOURCE_PORT);
    assert_eq!(PortDirection::Destination.code(), X_DESTINATION_PORT);
}

#[test]
fn size_checks() {
    assert_eq!(check_send_size(8, 8), Ok(()));
    assert_eq!(
        check_send_size(9, 8),
        Err(XngError::BufTooBig { buf_size: 9, max_allowed: 8 })
    );
    assert_eq!(check_recv_size(8, 8), Ok(()));
    assert_eq!(
        check_recv_size(7, 8),
        Err(XngError::BufTooSmall { buf_size: 7, min_required: 8 })
    );
}

#[test]
fn vcpu_state_codes() {
    assert_eq!(VCpuState::Ready.code(), X_VCPU_READY);
    assert_eq!(VCpuState::Waiting.code(), X_VCPU_WAITING);
    assert_ne!(VCpuState::Running.code(), VCpuState::Idle.code());
}

#[test]
fn hm_message_short_text_is_kept() {
    assert_eq!(hm_message(b"fault", 16), b"fault".to_vec());
    assert_eq!(hm_message(b"", 16), Vec::<u8>::new());
}

#[test]
fn hm_message_long_text_is_cut() {
    assert_eq!(hm_message(b"index out of bounds", 5), b"index".to_vec());
    assert_eq!(hm_message(b"abc", 0), Vec::<u8>::new());
}
