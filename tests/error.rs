use media_sessions::{Duration, MediaError};

#[test]
fn test_error_display() {
    let err = MediaError::NotSupported("freebsd".to_string());
    assert_eq!(err.to_string(), "platform not supported: freebsd");
}

#[test]
fn test_error_platform() {
    let err = MediaError::ComError(0x8000_4005);
    assert_eq!(err.platform(), "windows");
}

#[test]
fn test_error_hresult() {
    let err = MediaError::ComError(0x8001_010E);
    assert_eq!(err.hresult(), Some(0x8001_010E));
}

#[test]
fn test_error_retryable() {
    let err = MediaError::Timeout(Duration::from_secs(5));
    assert!(err.is_retryable());

    let err = MediaError::NotSupported("test".to_string());
    assert!(!err.is_retryable());
}

#[test]
fn error_messages_of_each_variant() {
    assert_eq!(MediaError::NoSession.to_string(), "no active media session found");
    let backend = MediaError::Backend {
        platform: "linux".to_string(),
        message: "bus gone".to_string(),
    };
    assert_eq!(backend.to_string(), "backend error on linux: bus gone");
    assert_eq!(
        MediaError::DBusError("no reply".to_string()).to_string(),
        "D-Bus error: no reply"
    );
    assert_eq!(
        MediaError::ComError(0x8000_4005).to_string(),
        "COM/WinRT initialization failed: HRESULT 0x80004005"
    );
    assert_eq!(
        MediaError::ComError(0x1F).to_string(),
        "COM/WinRT initialization failed: HRESULT 0x0000001F"
    );
    assert_eq!(
        MediaError::ObjCError("nil".to_string()).to_string(),
        "Objective-C runtime error: nil"
    );
    assert_eq!(
        MediaError::Timeout(Duration::from_secs(5)).to_string(),
        "operation timed out after 5s"
    );
    assert_eq!(
        MediaError::Timeout(Duration::from_millis(250)).to_string(),
        "operation timed out after 250ms"
    );
    assert_eq!(
        MediaError::InvalidArtwork("truncated".to_string()).to_string(),
        "invalid artwork data: truncated"
    );
    let seek = MediaError::SeekOutOfRange {
        requested: Duration::from_secs(300),
        duration: Duration::from_millis(200_500),
    };
    assert_eq!(
        seek.to_string(),
        "seek position 300s is out of range (track duration: 200.5s)"
    );
    assert_eq!(
        MediaError::PermissionDenied("accessibility".to_string()).to_string(),
        "permission denied: accessibility"
    );
    assert_eq!(
        MediaError::InvalidArgument("volume".to_string()).to_string(),
        "invalid argument: volume"
    );
}

#[test]
fn error_platform_of_each_variant() {
    assert_eq!(MediaError::NotSupported("freebsd".to_string()).platform(), "freebsd");
    let backend = MediaError::Backend {
        platform: "macos".to_string(),
        message: "x".to_string(),
    };
    assert_eq!(backend.platform(), "macos");
    assert_eq!(MediaError::DBusError("x".to_string()).platform(), "linux");
    assert_eq!(MediaError::ObjCError("x".to_string()).platform(), "macos");
    assert_eq!(MediaError::NoSession.platform(), "unknown");
    assert_eq!(MediaError::Timeout(Duration::from_secs(1)).platform(), "unknown");
}

#[test]
fn error_hresult_only_for_native_object_errors() {
    assert_eq!(MediaError::NoSession.hresult(), None);
    assert_eq!(MediaError::DBusError("x".to_string()).hresult(), None);
}

#[test]
fn retryable_kinds() {
    assert!(MediaError::DBusError("x".to_string()).is_retryable());
    assert!(MediaError::ComError(1).is_retryable());
    let backend = MediaError::Backend {
        platform: "linux".to_string(),
        message: "x".to_string(),
    };
    assert!(backend.is_retryable());
    assert!(!MediaError::NoSession.is_retryable());
    assert!(!MediaError::InvalidArgument("x".to_string()).is_retryable());
    let seek = MediaError::SeekOutOfRange {
        requested: Duration::from_secs(2),
        duration: Duration::from_secs(1),
    };
    assert!(!seek.is_retryable());
}

#[test]
fn duration_rendering() {
    assert_eq!(Duration::from_millis(0).to_string(), "0ms");
    assert_eq!(Duration::from_millis(999).to_string(), "999ms");
    assert_eq!(Duration::from_secs(60).to_string(), "60s");
    assert_eq!(Duration::from_millis(1500).to_string(), "1.5s");
    assert_eq!(Duration::from_millis(1050).to_string(), "1.05s");
    assert_eq!(Duration::from_millis(1005).to_string(), "1.005s");
    assert_eq!(Duration::from_millis(12_340).to_string(), "12.34s");
}

#[test]
fn duration_conversions() {
    assert_eq!(Duration::from_secs(3).as_millis(), 3000);
    assert_eq!(Duration::from_micros(2_500_999).as_millis(), 2500);
    assert_eq!(Duration::from_millis(2999).as_secs(), 2);
    assert_eq!(Duration::from_millis(7).as_micros(), 7000);
    assert_eq!(Duration::from_secs(u64::MAX).as_millis(), u64::MAX);
    let a = Duration::from_millis(1200);
    let b = Duration::from_millis(200);
    assert_eq!(a.saturating_sub(b), Duration::from_millis(1000));
    assert_eq!(b.saturating_sub(a), Duration::zero());
}
