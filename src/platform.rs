//! Knowledge of the supported platforms and the conversions that their adapters
//! apply to what the native session APIs report.
use vstd::prelude::*;
use vstd::string::*;

use crate::media_info::{MediaInfo, PlaybackStatus};
use crate::media_sessions::RepeatMode;
use crate::time::Duration;

verus! {

/// Bus-name prefix under which media players register on the message bus.
pub const MPRIS_SERVICE_PREFIX: &'static str = "org.mpris.MediaPlayer2.";

/// Object path of a media player on the message bus.
pub const MPRIS_PATH: &'static str = "/org/mpris/MediaPlayer2";

/// Player interface on the message bus.
pub const MPRIS_PLAYER_INTERFACE: &'static str = "org.mpris.MediaPlayer2.Player";

/// Application name reported for sessions of the native session-transport API.
pub const TRANSPORT_APP_NAME: &'static str = "Windows Media Session";

/// Number of 100-nanosecond ticks in a second.
pub const TICKS_PER_SECOND: u64 = 10_000_000;

/// Whether `p` is a prefix of `s`.
pub open spec fn has_prefix(s: Seq<char>, p: Seq<char>) -> bool {
    p.len() <= s.len() && s.subrange(0, p.len() as int) == p
}

/// Whether `p` is a prefix of `s`.
pub fn starts_with(s: &str, p: &str) -> (r: bool)
    ensures
        r == has_prefix(s@, p@),
{
    let n = s.unicode_len();
    let m = p.unicode_len();
    if m > n {
        return false;
    }
    let mut i: usize = 0;
    while i < m
        invariant
            i <= m <= n,
            n == s@.len(),
            m == p@.len(),
            forall|k: int| 0 <= k < i ==> s@[k] == p@[k],
        decreases m - i,
    {
        if s.get_char(i) != p.get_char(i) {
            assert(s@.subrange(0, m as int)[i as int] != p@[i as int]);
            return false;
        }
        i = i + 1;
    }
    assert(s@.subrange(0, m as int) =~= p@);
    true
}

/// Whether `a` and `b` hold the same text.
pub fn same_str(a: &str, b: &str) -> (r: bool)
    ensures
        r == (a@ == b@),
{
    let same_len = a.unicode_len() == b.unicode_len();
    if !same_len {
        return false;
    }
    let r = starts_with(a, b);
    assert(a@.subrange(0, b@.len() as int) =~= a@);
    r
}

/// The platform name for a host operating system name: one of the three
/// supported platforms, else `unknown`.
pub open spec fn platform_of(os: Seq<char>) -> Seq<char> {
    if os == "windows"@ {
        "windows"@
    } else if os == "linux"@ {
        "linux"@
    } else if os == "macos"@ {
        "macos"@
    } else {
        "unknown"@
    }
}

/// The platform name of the host whose operating system is named `os`.
pub fn current_platform(os: &str) -> (r: &'static str)
    ensures
        r@ == platform_of(os@),
{
    if same_str(os, "windows") {
        "windows"
    } else if same_str(os, "linux") {
        "linux"
    } else if same_str(os, "macos") {
        "macos"
    } else {
        "unknown"
    }
}

/// The platforms with an adapter on the host whose operating system is named
/// `os`: that host's platform when it is supported, else none.
pub fn available_platforms(os: &str) -> (r: Vec<&'static str>)
    ensures
        platform_of(os@) != "unknown"@ ==> r@.len() == 1 && r@[0]@ == platform_of(os@),
        platform_of(os@) == "unknown"@ ==> r@.len() == 0,
{
    let mut platforms: Vec<&'static str> = Vec::new();
    let p = current_platform(os);
    if !same_str(p, "unknown") {
        platforms.push(p);
    }
    platforms
}

/// The status that a message-bus `PlaybackStatus` string denotes.
pub open spec fn mpris_status(state: Seq<char>) -> PlaybackStatus {
    if state == "Playing"@ {
        PlaybackStatus::Playing
    } else if state == "Paused"@ {
        PlaybackStatus::Paused
    } else if state == "Stopped"@ {
        PlaybackStatus::Stopped
    } else {
        PlaybackStatus::Transitioning
    }
}

/// Converts a message-bus `PlaybackStatus` string; anything unknown is `Transitioning`.
pub fn convert_playback_state(state: &str) -> (r: PlaybackStatus)
    ensures
        r == mpris_status(state@),
{
    if same_str(state, "Playing") {
        PlaybackStatus::Playing
    } else if same_str(state, "Paused") {
        PlaybackStatus::Paused
    } else if same_str(state, "Stopped") {
        PlaybackStatus::Stopped
    } else {
        PlaybackStatus::Transitioning
    }
}

/// Whether a bus name belongs to a media player.
pub open spec fn is_player_name(name: String) -> bool {
    has_prefix(name@, MPRIS_SERVICE_PREFIX@)
}

/// The first bus name, in the order listed, that belongs to a media player.
pub fn find_player(names: &Vec<String>) -> (r: Option<String>)
    ensures
        r is None <==> forall|i: int| 0 <= i < names@.len() ==> !is_player_name(names@[i]),
        r is Some ==> exists|i: int|
            0 <= i < names@.len() && r->Some_0 == names@[i] && is_player_name(names@[i])
                && forall|k: int| 0 <= k < i ==> !is_player_name(#[trigger] names@[k]),
{
    let mut i: usize = 0;
    while i < names.len()
        invariant
            i <= names@.len(),
            forall|k: int| 0 <= k < i ==> !is_player_name(#[trigger] names@[k]),
        decreases names@.len() - i,
    {
        if starts_with(names[i].as_str(), MPRIS_SERVICE_PREFIX) {
            let found = names[i].clone();
            assert(found == names@[i as int]);
            return Some(found);
        }
        i = i + 1;
    }
    None
}

/// The application name of a player's bus name: the name without the player prefix.
pub open spec fn app_name_of(name: Seq<char>) -> Seq<char> {
    if has_prefix(name, MPRIS_SERVICE_PREFIX@) {
        name.subrange(MPRIS_SERVICE_PREFIX@.len() as int, name.len() as int)
    } else {
        name
    }
}

/// The application name of the attached player, if one is attached.
pub fn active_app_name(player: &Option<String>) -> (r: Option<String>)
    ensures
        r is Some <==> player is Some,
        r is Some ==> r->Some_0@ == app_name_of(player->Some_0@),
{
    match player {
        Some(name) => {
            let s = name.as_str();
            if starts_with(s, MPRIS_SERVICE_PREFIX) {
                let rest = s.substring_char(MPRIS_SERVICE_PREFIX.unicode_len(), s.unicode_len());
                Some(String::from_str(rest))
            } else {
                Some(String::from_str(s))
            }
        },
        None => None,
    }
}

/// The message-bus `LoopStatus` value of a repeat mode.
pub open spec fn loop_status_text(mode: RepeatMode) -> Seq<char> {
    match mode {
        RepeatMode::Off => "None"@,
        RepeatMode::One => "Track"@,
        RepeatMode::All => "Playlist"@,
    }
}

/// The message-bus `LoopStatus` value of a repeat mode.
pub fn loop_status(mode: RepeatMode) -> (r: &'static str)
    ensures
        r@ == loop_status_text(mode),
{
    match mode {
        RepeatMode::Off => "None",
        RepeatMode::One => "Track",
        RepeatMode::All => "Playlist",
    }
}

/// A seek target in microseconds for `SetPosition`, saturating at `i64::MAX`.
pub fn seek_target_micros(position: Duration) -> (r: i64)
    ensures
        r == if position.millis * 1000 <= i64::MAX {
            position.millis * 1000
        } else {
            i64::MAX as int
        },
{
    let micros = position.as_micros();
    if micros <= i64::MAX as u128 {
        micros as i64
    } else {
        i64::MAX
    }
}

/// A span given in signed microseconds; negative values are not a span.
pub open spec fn span_of_micros(micros: i64) -> Option<Duration> {
    if micros >= 0 {
        Some(Duration { millis: (micros / 1000) as u64 })
    } else {
        None
    }
}

/// A span given in signed microseconds; negative values are not a span.
pub fn micros_to_duration(micros: i64) -> (r: Option<Duration>)
    ensures
        r == span_of_micros(micros),
{
    if micros >= 0 {
        Some(Duration::from_micros(micros as u64))
    } else {
        None
    }
}

/// The artists of a track joined with `, `.
pub open spec fn joined(parts: Seq<String>) -> Seq<char>
    decreases parts.len(),
{
    if parts.len() == 0 {
        Seq::empty()
    } else if parts.len() == 1 {
        parts[0]@
    } else {
        joined(parts.drop_last()) + ", "@ + parts.last()@
    }
}

/// Joins the artists of a track with `, `.
pub fn join_artists(parts: &Vec<String>) -> (r: String)
    ensures
        r@ == joined(parts@),
{
    let mut out = String::new();
    let mut i: usize = 0;
    while i < parts.len()
        invariant
            i <= parts@.len(),
            out@ == joined(parts@.subrange(0, i as int)),
        decreases parts@.len() - i,
    {
        if i > 0 {
            out.append(", ");
        }
        out.append(parts[i].as_str());
        proof {
            let next = parts@.subrange(0, i + 1);
            assert(next.drop_last() =~= parts@.subrange(0, i as int));
            if i == 0 {
                reveal_strlit("");
                assert(out@ =~= joined(next));
            }
        }
        i = i + 1;
    }
    assert(parts@.subrange(0, parts@.len() as int) =~= parts@);
    out
}

/// The fields of a message-bus metadata dictionary that a snapshot takes:
/// `xesam:title`, `xesam:artist`, `xesam:album` and `mpris:length`.
pub struct MprisMetadata {
    /// `xesam:title`.
    pub title: Option<String>,
    /// `xesam:artist`, a list of names.
    pub artists: Option<Vec<String>>,
    /// `xesam:album`.
    pub album: Option<String>,
    /// `mpris:length`, in microseconds.
    pub length_micros: Option<i64>,
}

/// Builds a snapshot from the player's metadata, `PlaybackStatus` and
/// `Position` (microseconds). The artists become one `, `-joined string.
pub fn snapshot_from_mpris(meta: MprisMetadata, status: &str, position_micros: i64) -> (r:
    MediaInfo)
    ensures
        r.title == meta.title,
        r.album == meta.album,
        meta.artists is None ==> r.artist is None,
        meta.artists is Some ==> r.artist is Some && r.artist->Some_0@ == joined(
            meta.artists->Some_0@,
        ),
        r.duration == match meta.length_micros {
            Some(n) => span_of_micros(n),
            None => None,
        },
        r.position == span_of_micros(position_micros),
        r.playback_status == mpris_status(status@),
        r.artwork is None,
        r.track_number is None,
        r.disc_number is None,
        r.genre is None,
        r.year is None,
        r.url is None,
        r.thumbnail_url is None,
        r.media_type is None,
{
    let artist = match &meta.artists {
        Some(list) => Some(join_artists(list)),
        None => None,
    };
    let duration = match meta.length_micros {
        Some(n) => micros_to_duration(n),
        None => None,
    };
    MediaInfo {
        title: meta.title,
        artist,
        album: meta.album,
        duration,
        position: micros_to_duration(position_micros),
        playback_status: convert_playback_state(status),
        artwork: None,
        track_number: None,
        disc_number: None,
        genre: None,
        year: None,
        url: None,
        thumbnail_url: None,
        media_type: None,
    }
}

/// The status that a native session-transport status code denotes:
/// 3 stopped, 4 playing, 5 paused, anything else transitioning.
pub open spec fn transport_status(code: i32) -> PlaybackStatus {
    if code == 3 {
        PlaybackStatus::Stopped
    } else if code == 4 {
        PlaybackStatus::Playing
    } else if code == 5 {
        PlaybackStatus::Paused
    } else {
        PlaybackStatus::Transitioning
    }
}

/// Converts a native session-transport status code.
pub fn convert_playback_status(code: i32) -> (r: PlaybackStatus)
    ensures
        r == transport_status(code),
{
    if code == 3 {
        PlaybackStatus::Stopped
    } else if code == 4 {
        PlaybackStatus::Playing
    } else if code == 5 {
        PlaybackStatus::Paused
    } else {
        PlaybackStatus::Transitioning
    }
}

/// A span given in 100-nanosecond ticks, in whole seconds; negative values are not a span.
pub open spec fn span_of_ticks(ticks: i64) -> Option<Duration> {
    if ticks >= 0 {
        Some(Duration { millis: ((ticks as int / TICKS_PER_SECOND as int) * 1000) as u64 })
    } else {
        None
    }
}

/// A span given in 100-nanosecond ticks, in whole seconds; negative values are not a span.
pub fn ticks_to_duration(ticks: i64) -> (r: Option<Duration>)
    ensures
        r == span_of_ticks(ticks),
{
    if ticks >= 0 {
        Some(Duration::from_secs(ticks as u64 / TICKS_PER_SECOND))
    } else {
        None
    }
}

/// A seek target in 100-nanosecond ticks, from whole seconds, saturating at `i64::MAX`.
pub fn seek_target_ticks(position: Duration) -> (r: i64)
    ensures
        r == if (position.millis / 1000) * TICKS_PER_SECOND <= i64::MAX {
            (position.millis / 1000) * TICKS_PER_SECOND
        } else {
            i64::MAX as int
        },
{
    let secs = position.as_secs();
    if secs <= i64::MAX as u64 / TICKS_PER_SECOND {
        (secs * TICKS_PER_SECOND) as i64
    } else {
        i64::MAX
    }
}

/// A reported string, where an empty one counts as absent.
pub open spec fn non_empty_of(s: Option<String>) -> Option<String> {
    match s {
        Some(t) => if t@.len() == 0 {
            None
        } else {
            Some(t)
        },
        None => None,
    }
}

/// A reported string, where an empty one counts as absent.
pub fn non_empty(s: Option<String>) -> (r: Option<String>)
    ensures
        r == non_empty_of(s),
{
    match s {
        Some(t) => {
            if t.as_str().is_empty() {
                None
            } else {
                Some(t)
            }
        },
        None => None,
    }
}

/// What the native session-transport API reported of one session; each field is
/// absent where its call failed.
pub struct TransportProperties {
    /// `Title`.
    pub title: Option<String>,
    /// `Artist`.
    pub artist: Option<String>,
    /// `AlbumTitle`.
    pub album: Option<String>,
    /// `PlaybackStatus` code.
    pub status_code: Option<i32>,
    /// Timeline `Position`, in ticks.
    pub position_ticks: Option<i64>,
    /// Timeline `EndTime`, in ticks.
    pub end_ticks: Option<i64>,
}

/// Builds a snapshot from the native session-transport properties: empty strings
/// are absent, a missing status counts as stopped, times are whole seconds.
pub fn snapshot_from_transport(props: TransportProperties) -> (r: MediaInfo)
    ensures
        r.title == non_empty_of(props.title),
        r.artist == non_empty_of(props.artist),
        r.album == non_empty_of(props.album),
        r.playback_status == match props.status_code {
            Some(c) => transport_status(c),
            None => PlaybackStatus::Stopped,
        },
        r.position == match props.position_ticks {
            Some(t) => span_of_ticks(t),
            None => None,
        },
        r.duration == match props.end_ticks {
            Some(t) => span_of_ticks(t),
            None => None,
        },
        r.artwork is None,
        r.track_number is None,
        r.disc_number is None,
        r.genre is None,
        r.year is None,
        r.url is None,
        r.thumbnail_url is None,
        r.media_type is None,
{
    let playback_status = match props.status_code {
        Some(c) => convert_playback_status(c),
        None => PlaybackStatus::Stopped,
    };
    let position = match props.position_ticks {
        Some(t) => ticks_to_duration(t),
        None => None,
    };
    let duration = match props.end_ticks {
        Some(t) => ticks_to_duration(t),
        None => None,
    };
    MediaInfo {
        title: non_empty(props.title),
        artist: non_empty(props.artist),
        album: non_empty(props.album),
        duration,
        position,
        playback_status,
        artwork: None,
        track_number: None,
        disc_number: None,
        genre: None,
        year: None,
        url: None,
        thumbnail_url: None,
        media_type: None,
    }
}

} // verus!
