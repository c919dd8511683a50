use media_sessions::{Duration, MediaInfo, MediaType, PlaybackStatus};

#[test]
fn test_playback_status_display() {
    assert_eq!(PlaybackStatus::Playing.to_string(), "playing");
    assert_eq!(PlaybackStatus::Paused.to_string(), "paused");
    assert_eq!(PlaybackStatus::Stopped.to_string(), "stopped");
}

#[test]
fn test_media_info_display() {
    let info = MediaInfo {
        title: Some("Title".to_string()),
        artist: Some("Artist".to_string()),
        album: Some("Album".to_string()),
        year: Some(2024),
        ..Default::default()
    };
    assert_eq!(info.to_string(), "Artist - Title (Album) [2024]");
}

#[test]
fn test_progress_calculation() {
    let info = MediaInfo {
        duration: Some(Duration::from_secs(200)),
        position: Some(Duration::from_secs(50)),
        ..Default::default()
    };
    let (num, den) = info.progress_fraction();
    let progress = num as f64 / den as f64;
    assert!((progress - 0.25).abs() < f64::EPSILON);
    assert!((progress * 100.0 - 25.0).abs() < f64::EPSILON);
}

#[test]
fn test_artwork_format_detection() {
    let png_info = MediaInfo {
        artwork: Some(vec![0x89, 0x50, 0x4E, 0x47, 0x0D, 0x0A, 0x1A, 0x0A]),
        ..Default::default()
    };
    assert_eq!(png_info.artwork_format(), Some("PNG"));

    let jpeg_info = MediaInfo {
        artwork: Some(vec![0xFF, 0xD8, 0xFF, 0xE0]),
        ..Default::default()
    };
    assert_eq!(jpeg_info.artwork_format(), Some("JPEG"));
}

#[test]
fn artwork_format_gif_unknown_and_absent() {
    let gif = MediaInfo {
        artwork: Some(vec![0x47, 0x49, 0x46, 0x38, 0x39, 0x61]),
        ..Default::default()
    };
    assert_eq!(gif.artwork_format(), Some("GIF"));
    let short = MediaInfo {
        artwork: Some(vec![0x89, 0x50, 0x4E]),
        ..Default::default()
    };
    assert_eq!(short.artwork_format(), None);
    let other = MediaInfo {
        artwork: Some(vec![0x00, 0x01, 0x02, 0x03]),
        ..Default::default()
    };
    assert_eq!(other.artwork_format(), None);
    assert_eq!(MediaInfo::default().artwork_format(), None);
}

#[test]
fn progress_is_clamped_and_defined_without_data() {
    let overshoot = MediaInfo {
        duration: Some(Duration::from_secs(200)),
        position: Some(Duration::from_secs(250)),
        ..Default::default()
    };
    assert_eq!(overshoot.progress_fraction(), (200_000, 200_000));
    let zero_length = MediaInfo {
        duration: Some(Duration::zero()),
        position: Some(Duration::from_secs(3)),
        ..Default::default()
    };
    assert_eq!(zero_length.progress_fraction(), (0, 1));
    let no_position = MediaInfo {
        duration: Some(Duration::from_secs(200)),
        ..Default::default()
    };
    assert_eq!(no_position.progress_fraction(), (0, 1));
    let half = MediaInfo {
        duration: Some(Duration::from_secs(200)),
        position: Some(Duration::from_secs(100)),
        ..Default::default()
    };
    assert_eq!(half.progress_fraction(), (100_000, 200_000));
}

#[test]
fn display_string_variants() {
    let both = MediaInfo {
        title: Some("Song".to_string()),
        artist: Some("Band".to_string()),
        ..Default::default()
    };
    assert_eq!(both.display_string(), "Band - Song");
    let title_only = MediaInfo {
        title: Some("Song".to_string()),
        ..Default::default()
    };
    assert_eq!(title_only.display_string(), "Song");
    let artist_only = MediaInfo {
        artist: Some("Band".to_string()),
        title: Some(String::new()),
        ..Default::default()
    };
    assert_eq!(artist_only.display_string(), "Band");
    assert_eq!(MediaInfo::default().display_string(), "");
}

#[test]
fn description_with_negative_year_and_no_album() {
    let info = MediaInfo {
        title: Some("Ode".to_string()),
        year: Some(-44),
        ..Default::default()
    };
    assert_eq!(info.to_string(), "Ode [-44]");
    let album_only = MediaInfo {
        title: Some("Ode".to_string()),
        album: Some("Odes".to_string()),
        ..Default::default()
    };
    assert_eq!(album_only.to_string(), "Ode (Odes)");
}

#[test]
fn getters_and_seconds() {
    let info = MediaInfo {
        title: Some("T".to_string()),
        album: Some("Al".to_string()),
        duration: Some(Duration::from_millis(200_900)),
        position: Some(Duration::from_millis(59_999)),
        playback_status: PlaybackStatus::Paused,
        media_type: Some(MediaType::Podcast),
        ..Default::default()
    };
    assert_eq!(info.title(), "T");
    assert_eq!(info.artist(), "");
    assert_eq!(info.album(), "Al");
    assert_eq!(info.duration_secs(), 200);
    assert_eq!(info.position_secs(), 59);
    assert!(info.is_paused());
    assert!(!info.is_playing());
    assert_eq!(MediaInfo::default().duration_secs(), 0);
    assert_eq!(MediaInfo::default().position_secs(), 0);
}

#[test]
fn status_predicates_and_default() {
    assert_eq!(PlaybackStatus::default(), PlaybackStatus::Stopped);
    assert_eq!(MediaInfo::default().playback_status, PlaybackStatus::Stopped);
    assert!(PlaybackStatus::Playing.is_playing());
    assert!(PlaybackStatus::Paused.is_paused());
    assert!(PlaybackStatus::Stopped.is_stopped());
    assert!(!PlaybackStatus::Transitioning.is_stopped());
    assert_eq!(PlaybackStatus::Transitioning.as_str(), "transitioning");
}
