use xng_rs::partition::partition_id_from;
use xng_rs::{
    XngError, XngErrorTrace, X_INVALID_CONFIG, X_INVALID_MODE, X_INVALID_PARAM, X_NOT_AVAILABLE,
    X_NO_ACTION, X_NO_ERROR,
};

#[test]
fn success_code_is_ok() {
    assert_eq!(XngError::from(X_NO_ERROR), Ok(()));
}

#[test]
fn known_codes_map_to_their_variants() {
    assert_eq!(XngError::from(X_NO_ACTION), Err(XngError::NoAction));
    assert_eq!(XngError::from(X_NOT_AVAILABLE), Err(XngError::NotAvailable));
    assert_eq!(XngError::from(X_INVALID_PARAM), Err(XngError::InvalidParam));
    assert_eq!(XngError::from(X_INVALID_CONFIG), Err(XngError::InvalidConfig));
    assert_eq!(XngError::from(X_INVALID_MODE), Err(XngError::InvalidMode));
}

#[test]
fn unknown_codes_keep_their_value() {
    assert_eq!(XngError::from(6), Err(XngError::UnknownReturnCode(6)));
    assert_eq!(XngError::from(42), Err(XngError::UnknownReturnCode(42)));
    assert_eq!(
        XngError::from(u32::MAX),
        Err(XngError::UnknownReturnCode(u32::MAX))
    );
}

#[test]
fn same_code_same_result() {
    for code in 0u32..16 {
        assert_eq!(XngError::from(code), XngError::from(code));
    }
}

#[test]
fn error_trace_keeps_error_and_line() {
    let trace = XngErrorTrace::new(XngError::InvalidMode, 17);
    assert_eq!(trace.line_number(), 17);
    assert_eq!(trace.into_error(), XngError::InvalidMode);
}

#[test]
fn partition_id_passes_through_on_success() {
    assert_eq!(partition_id_from(X_NO_ERROR, 3), Ok(3));
}

#[test]
fn partition_id_reports_kernel_error() {
    assert_eq!(
        partition_id_from(X_INVALID_CONFIG, 3),
        Err(XngError::InvalidConfig)
    );
    assert_eq!(
        partition_id_from(99, 3),
        Err(XngError::UnknownReturnCode(99))
    );
}
