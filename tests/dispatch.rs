use media_sessions::dispatch::{check_seek, settle, wants_artwork, with_artwork};
use media_sessions::{Duration, MediaError, MediaInfo, MediaResult};

#[test]
fn deadline_shorter_than_latency_times_out_then_longer_deadline_succeeds() {
    // The adapter's answer did not arrive within the 100 ms deadline.
    let first: MediaResult<()> = settle(None, Duration::from_millis(100));
    assert_eq!(first, Err(MediaError::Timeout(Duration::from_millis(100))));
    // The same adapter, given a sufficient deadline, answers.
    let second = settle(Some(Ok(())), Duration::from_secs(5));
    assert_eq!(second, Ok(()));
}

#[test]
fn settle_passes_adapter_errors_through() {
    let r: MediaResult<u32> = settle(Some(Err(MediaError::NoSession)), Duration::from_secs(5));
    assert_eq!(r, Err(MediaError::NoSession));
    let v = settle(Some(Ok(7u32)), Duration::from_secs(5));
    assert_eq!(v, Ok(7));
}

#[test]
fn seek_beyond_known_duration_is_refused() {
    let r = check_seek(Duration::from_secs(300), Some(Duration::from_secs(200)));
    assert_eq!(
        r,
        Err(MediaError::SeekOutOfRange {
            requested: Duration::from_secs(300),
            duration: Duration::from_secs(200),
        })
    );
}

#[test]
fn seek_within_or_without_known_duration_is_allowed() {
    assert_eq!(check_seek(Duration::from_secs(30), Some(Duration::from_secs(200))), Ok(()));
    assert_eq!(check_seek(Duration::from_secs(200), Some(Duration::from_secs(200))), Ok(()));
    assert_eq!(check_seek(Duration::from_secs(30_000), None), Ok(()));
}

#[test]
fn artwork_is_fetched_only_when_enabled_and_missing() {
    let bare = MediaInfo::default();
    assert!(wants_artwork(true, &bare));
    assert!(!wants_artwork(false, &bare));
    let with = MediaInfo {
        artwork: Some(vec![1, 2, 3]),
        ..Default::default()
    };
    assert!(!wants_artwork(true, &with));
}

#[test]
fn fetched_artwork_is_attached_and_failures_dropped() {
    let info = MediaInfo {
        title: Some("T".to_string()),
        ..Default::default()
    };
    let got = with_artwork(info.clone(), Ok(Some(vec![0xFF, 0xD8, 0xFF])));
    assert_eq!(got.artwork, Some(vec![0xFF, 0xD8, 0xFF]));
    assert_eq!(got.title, Some("T".to_string()));
    let failed = with_artwork(info, Err(MediaError::DBusError("x".to_string())));
    assert_eq!(failed.artwork, None);
    assert_eq!(failed.title, Some("T".to_string()));
}
