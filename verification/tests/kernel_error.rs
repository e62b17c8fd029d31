use ide_kernel::error::{CoreError, ErrorCategory};

#[test]
fn validation_error_has_biz_code() {
    let e = CoreError::Validation("bad input".to_string());
    assert_eq!(e.code().to_string(), "ERR-BIZ:001");
    assert_eq!(e.code().category(), Some(ErrorCategory::Biz));
    assert_eq!(e.into_http_status(), 400);
    assert!(!e.is_retryable());
}

#[test]
fn capability_not_found_maps_to_404() {
    let e = CoreError::CapabilityNotFound("text.search".to_string());
    assert_eq!(e.code().to_string(), "ERR-BIZ:004");
    assert_eq!(e.into_http_status(), 400);
}

#[test]
fn network_error_is_retryable() {
    let e = CoreError::Network("timeout".to_string());
    assert!(e.is_retryable());
    assert_eq!(e.into_http_status(), 502);
}

#[test]
fn io_error_conversion_works() {
    let io = std::io::Error::new(std::io::ErrorKind::NotFound, "missing");
    let e: CoreError = io.into();
    assert_eq!(e.code().to_string(), "ERR-SYS:005");
}

#[test]
fn cancelled_has_no_payload() {
    let e = CoreError::Cancelled;
    assert_eq!(e.code().to_string(), "ERR-SYS:004");
}

#[test]
fn display_includes_code_and_payload() {
    let e = CoreError::SessionNotFound("S-abc".to_string());
    let s = e.to_string();
    assert!(s.contains("ERR-BIZ:003"));
    assert!(s.contains("S-abc"));
}

#[test]
fn error_messages_are_code_lead_and_detail() {
    assert_eq!(
        CoreError::AuthzDenied("no".to_string()).to_string(),
        "ERR-BIZ:002 authz denied: no"
    );
    assert_eq!(CoreError::Cancelled.to_string(), "ERR-SYS:004 cancelled");
    assert_eq!(
        CoreError::Config("bad".to_string()).to_string(),
        "ERR-SYS:007 configuration invalid: bad"
    );
    let io = std::io::Error::new(std::io::ErrorKind::NotFound, "missing");
    let e: CoreError = io.into();
    assert_eq!(e.to_string(), "ERR-SYS:005 io error: missing");
}

#[test]
fn classification_of_every_category() {
    // Business errors: 400, never retryable.
    for e in [
        CoreError::Validation(String::new()),
        CoreError::SessionNotFound(String::new()),
        CoreError::Transaction(String::new()),
    ] {
        assert_eq!(e.code().category(), Some(ErrorCategory::Biz));
        assert_eq!(e.into_http_status(), 400);
        assert!(!e.is_retryable());
    }
    // External errors: 502, always retryable.
    for e in [
        CoreError::Provider(String::new()),
        CoreError::Network(String::new()),
        CoreError::Serialization(String::new()),
    ] {
        assert_eq!(e.code().category(), Some(ErrorCategory::Ext));
        assert_eq!(e.into_http_status(), 502);
        assert!(e.is_retryable());
    }
    // System errors: 500; only the timeout is retryable.
    let timeout = CoreError::Timeout("slow".to_string());
    assert_eq!(timeout.code().to_string(), "ERR-SYS:003");
    assert_eq!(timeout.into_http_status(), 500);
    assert!(timeout.is_retryable());
    let internal = CoreError::Internal(String::new());
    assert_eq!(internal.into_http_status(), 500);
    assert!(!internal.is_retryable());
}

#[test]
fn category_statuses() {
    assert_eq!(ErrorCategory::Biz.into_http_status(), 400);
    assert_eq!(ErrorCategory::Ext.into_http_status(), 502);
    assert_eq!(ErrorCategory::Sys.into_http_status(), 500);
}

#[test]
fn error_codes_compare_and_clone_by_text() {
    let a = CoreError::Timeout("t".to_string()).code();
    let b = CoreError::Timeout("other".to_string()).code();
    let c = CoreError::Cancelled.code();
    assert_eq!(a, b);
    assert_ne!(a, c);
    let d = c.clone();
    assert_eq!(d, c);
    assert_eq!(d.to_string(), "ERR-SYS:004");
}
