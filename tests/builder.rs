use media_sessions::{Duration, MediaError, MediaSessionsBuilder, RepeatMode};

#[test]
fn test_builder_defaults() {
    let builder = MediaSessionsBuilder::new();
    assert_eq!(builder.debounce(), Duration::from_millis(800));
    assert_eq!(builder.timeout(), Duration::from_secs(5));
    assert!(builder.artwork_enabled());
}

#[test]
fn test_repeat_mode_default() {
    assert_eq!(RepeatMode::default(), RepeatMode::Off);
}

#[test]
fn builder_rejects_zero_debounce() {
    let r = MediaSessionsBuilder::new().debounce_duration(Duration::zero());
    assert!(matches!(r, Err(MediaError::InvalidArgument(_))));
}

#[test]
fn builder_debounce_bounds() {
    let b = MediaSessionsBuilder::new()
        .debounce_duration(Duration::from_secs(60))
        .unwrap();
    assert_eq!(b.debounce(), Duration::from_secs(60));
    assert_eq!(b.timeout(), Duration::from_secs(5));
    let too_long = MediaSessionsBuilder::new().debounce_duration(Duration::from_millis(60_001));
    assert!(matches!(too_long, Err(MediaError::InvalidArgument(_))));
}

#[test]
fn builder_timeout_bounds() {
    let b = MediaSessionsBuilder::new()
        .operation_timeout(Duration::from_secs(10))
        .unwrap();
    assert_eq!(b.timeout(), Duration::from_secs(10));
    assert_eq!(b.debounce(), Duration::from_millis(800));
    assert!(matches!(
        MediaSessionsBuilder::new().operation_timeout(Duration::zero()),
        Err(MediaError::InvalidArgument(_))
    ));
    assert!(matches!(
        MediaSessionsBuilder::new().operation_timeout(Duration::from_secs(301)),
        Err(MediaError::InvalidArgument(_))
    ));
    assert!(MediaSessionsBuilder::new()
        .operation_timeout(Duration::from_secs(300))
        .is_ok());
}

#[test]
fn builder_custom_configuration() {
    let b = MediaSessionsBuilder::new()
        .debounce_duration(Duration::from_millis(250))
        .unwrap()
        .operation_timeout(Duration::from_secs(10))
        .unwrap()
        .enable_artwork(false);
    assert_eq!(b.debounce(), Duration::from_millis(250));
    assert_eq!(b.timeout(), Duration::from_secs(10));
    assert!(!b.artwork_enabled());
    let d = MediaSessionsBuilder::default();
    assert_eq!(d.debounce(), Duration::from_millis(800));
}
