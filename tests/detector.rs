use media_sessions::detector::POSITION_JUMP_THRESHOLD_MILLIS;
use media_sessions::{
    Debouncer, Detector, Duration, MediaError, MediaInfo, MediaSessionEvent, PlaybackStatus,
    Sample,
};

fn titled(title: &str) -> MediaInfo {
    MediaInfo {
        title: Some(title.to_string()),
        ..Default::default()
    }
}

fn session(info: MediaInfo) -> Sample {
    Sample::Session {
        app_name: "player".to_string(),
        info,
    }
}

fn at(millis: u64) -> Duration {
    Duration::from_millis(millis)
}

fn detector(debounce_millis: u64) -> Detector {
    Detector::new(
        Duration::from_millis(debounce_millis),
        Duration::from_millis(POSITION_JUMP_THRESHOLD_MILLIS),
    )
}

fn opened() -> Result<MediaSessionEvent, MediaError> {
    Ok(MediaSessionEvent::SessionOpened {
        app_name: "player".to_string(),
    })
}

#[test]
fn identical_samples_emit_nothing_after_first_tick() {
    let mut d = detector(0);
    let first = d.tick(session(titled("A")), at(0));
    assert_eq!(
        first,
        vec![opened(), Ok(MediaSessionEvent::MetadataChanged(titled("A")))]
    );
    for i in 1..10u64 {
        assert!(d.tick(session(titled("A")), at(i * 500)).is_empty());
    }
    let mut idle = detector(0);
    assert!(idle.tick(Sample::NoSession, at(0)).is_empty());
    assert!(idle.tick(Sample::NoSession, at(500)).is_empty());
}

#[test]
fn metadata_sequence_with_zero_debounce() {
    let mut d = detector(0);
    // the session is already attached, with no metadata yet
    assert_eq!(d.tick(session(MediaInfo::default()), at(0)), vec![opened()]);
    let mut events = Vec::new();
    events.extend(d.tick(session(titled("A")), at(500)));
    events.extend(d.tick(session(titled("A")), at(1000)));
    events.extend(d.tick(session(titled("B")), at(1500)));
    assert_eq!(
        events,
        vec![
            Ok(MediaSessionEvent::MetadataChanged(titled("A"))),
            Ok(MediaSessionEvent::MetadataChanged(titled("B"))),
        ]
    );
}

#[test]
fn session_appearing_opens_then_reports_metadata() {
    let mut d = detector(800);
    let mut events = Vec::new();
    events.extend(d.tick(Sample::NoSession, at(0)));
    events.extend(d.tick(session(titled("X")), at(500)));
    assert_eq!(
        events,
        vec![opened(), Ok(MediaSessionEvent::MetadataChanged(titled("X")))]
    );
}

#[test]
fn open_and_close_bypass_the_debounce_window() {
    let mut d = detector(60_000);
    assert_eq!(d.tick(session(titled("A")), at(0)).len(), 2);
    assert_eq!(
        d.tick(Sample::NoSession, at(100)),
        vec![Ok(MediaSessionEvent::SessionClosed)]
    );
    // reopening inside the window still reports the session; the metadata
    // change is dropped by the window
    assert_eq!(d.tick(session(titled("B")), at(200)), vec![opened()]);
    assert_eq!(
        d.tick(Sample::NoSession, at(300)),
        vec![Ok(MediaSessionEvent::SessionClosed)]
    );
}

#[test]
fn debounced_events_are_spaced_and_dropped_not_queued() {
    let mut d = detector(800);
    assert_eq!(d.tick(session(titled("A")), at(0)).len(), 2);
    // inside the window: dropped, but remembered
    assert!(d.tick(session(titled("B")), at(300)).is_empty());
    assert!(d.tick(session(titled("B")), at(900)).is_empty());
    // a new change after the window is reported
    assert_eq!(
        d.tick(session(titled("C")), at(1000)),
        vec![Ok(MediaSessionEvent::MetadataChanged(titled("C")))]
    );
    let paused = MediaInfo {
        playback_status: PlaybackStatus::Paused,
        ..titled("C")
    };
    assert!(d.tick(session(paused.clone()), at(1500)).is_empty());
    let playing = MediaInfo {
        playback_status: PlaybackStatus::Playing,
        ..titled("C")
    };
    assert_eq!(
        d.tick(session(playing), at(1800)),
        vec![Ok(MediaSessionEvent::PlaybackStatusChanged(
            PlaybackStatus::Playing
        ))]
    );
}

#[test]
fn one_event_per_tick_in_precedence_order() {
    let mut d = detector(0);
    let start = MediaInfo {
        playback_status: PlaybackStatus::Playing,
        position: Some(Duration::from_secs(10)),
        ..titled("A")
    };
    d.tick(session(start), at(0));
    let everything = MediaInfo {
        playback_status: PlaybackStatus::Paused,
        position: Some(Duration::from_secs(90)),
        ..titled("B")
    };
    let events = d.tick(session(everything.clone()), at(500));
    assert_eq!(events, vec![Ok(MediaSessionEvent::MetadataChanged(everything))]);
}

#[test]
fn position_jumps_are_measured_from_last_emitted_position() {
    let mut d = detector(0);
    let at_pos = |ms: u64| MediaInfo {
        position: Some(Duration::from_millis(ms)),
        ..Default::default()
    };
    // the first known position is reported
    assert_eq!(
        d.tick(session(at_pos(0)), at(0)),
        vec![
            opened(),
            Ok(MediaSessionEvent::PositionChanged {
                position: Duration::from_millis(0),
                old_position: None,
            })
        ]
    );
    assert!(d.tick(session(at_pos(600)), at(500)).is_empty());
    // 1200 ms lies more than the threshold away from the emitted 0 ms
    assert_eq!(
        d.tick(session(at_pos(1200)), at(1000)),
        vec![Ok(MediaSessionEvent::PositionChanged {
            position: Duration::from_millis(1200),
            old_position: Some(Duration::from_millis(0)),
        })]
    );
    assert!(d.tick(session(at_pos(2000)), at(1500)).is_empty());
    assert_eq!(
        d.tick(session(at_pos(100)), at(2000)),
        vec![Ok(MediaSessionEvent::PositionChanged {
            position: Duration::from_millis(100),
            old_position: Some(Duration::from_millis(1200)),
        })]
    );
}

#[test]
fn suppressed_position_jump_is_reported_later() {
    let mut d = detector(800);
    let start = MediaInfo {
        position: Some(Duration::from_secs(10)),
        ..titled("A")
    };
    assert_eq!(
        d.tick(session(start), at(0)),
        vec![opened(), Ok(MediaSessionEvent::MetadataChanged(MediaInfo {
            position: Some(Duration::from_secs(10)),
            ..titled("A")
        }))]
    );
    let jumped = MediaInfo {
        position: Some(Duration::from_secs(90)),
        ..titled("A")
    };
    // inside the window: held back
    assert!(d.tick(session(jumped.clone()), at(300)).is_empty());
    // after the window, the same sample reports it, then settles
    assert_eq!(
        d.tick(session(jumped.clone()), at(900)),
        vec![Ok(MediaSessionEvent::PositionChanged {
            position: Duration::from_secs(90),
            old_position: None,
        })]
    );
    assert!(d.tick(session(jumped.clone()), at(2000)).is_empty());
    assert!(d.tick(session(jumped), at(3000)).is_empty());
}

#[test]
fn failed_samples_are_forwarded_and_change_nothing() {
    let mut d = detector(0);
    d.tick(session(titled("A")), at(0));
    let before = d.clone();
    assert_eq!(
        d.tick(Sample::Failed(MediaError::DBusError("timeout".to_string())), at(500)),
        vec![Err(MediaError::DBusError("timeout".to_string()))]
    );
    assert_eq!(d, before);
    assert!(d.tick(session(titled("A")), at(1000)).is_empty());
}

#[test]
fn debouncer_spacing() {
    let mut b = Debouncer::new(Duration::from_millis(800));
    assert!(b.should_emit(at(0)));
    assert!(!b.should_emit(at(500)));
    assert!(!b.should_emit(at(799)));
    assert!(b.should_emit(at(800)));
    assert_eq!(b.last_emit, Some(at(800)));
    let mut zero = Debouncer::new(Duration::zero());
    assert!(zero.should_emit(at(5)));
    assert!(zero.should_emit(at(5)));
}
