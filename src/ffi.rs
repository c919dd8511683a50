//! Closed enumerations of the cross-language boundary and their conversions.
use vstd::prelude::*;

use crate::error::{MediaError, MediaResult};
use crate::media_info::PlaybackStatus;
use crate::media_sessions::{MediaSessionEvent, RepeatMode};

verus! {

/// Playback status as it crosses the boundary.
#[derive(Clone, Copy, Debug, PartialEq, Eq, Structural, Hash)]
pub enum CPlaybackStatus {
    /// Media is currently playing (code 0).
    Playing,
    /// Media is currently paused (code 1).
    Paused,
    /// Media is stopped (code 2).
    Stopped,
    /// Media is in a transitional state (code 3).
    Transitioning,
}

/// Repeat mode as it crosses the boundary.
#[derive(Clone, Copy, Debug, PartialEq, Eq, Structural, Hash)]
pub enum CRepeatMode {
    /// Repeat is disabled (code 0).
    Off,
    /// Repeat the current track (code 1).
    One,
    /// Repeat the entire playlist or album (code 2).
    All,
}

/// Result codes of the boundary functions.
#[derive(Clone, Copy, Debug, PartialEq, Eq, Structural, Hash)]
pub enum CResult {
    /// Success (code 0).
    Success,
    /// General error (code 1).
    Error,
    /// No active session (code 2).
    NoSession,
    /// Platform not supported (code 3).
    NotSupported,
    /// Operation timed out (code 4).
    Timeout,
    /// Invalid argument (code 5).
    InvalidArg,
}

/// Event kinds reported to boundary callbacks.
#[derive(Clone, Copy, Debug, PartialEq, Eq, Structural, Hash)]
pub enum CEventType {
    /// Metadata has changed (code 0).
    MetadataChanged,
    /// Playback status has changed (code 1).
    PlaybackStatusChanged,
    /// Playback position has changed (code 2).
    PositionChanged,
    /// A media session has become active (code 3).
    SessionOpened,
    /// The media session has closed (code 4).
    SessionClosed,
    /// Artwork has changed (code 5).
    ArtworkChanged,
    /// Volume has changed (code 6).
    VolumeChanged,
    /// Repeat or shuffle mode has changed (code 7).
    RepeatModeChanged,
}

/// The boundary form of a playback status.
pub open spec fn c_status_of(s: PlaybackStatus) -> CPlaybackStatus {
    match s {
        PlaybackStatus::Playing => CPlaybackStatus::Playing,
        PlaybackStatus::Paused => CPlaybackStatus::Paused,
        PlaybackStatus::Stopped => CPlaybackStatus::Stopped,
        PlaybackStatus::Transitioning => CPlaybackStatus::Transitioning,
    }
}

/// The playback status of a boundary form.
pub open spec fn status_of_c(s: CPlaybackStatus) -> PlaybackStatus {
    match s {
        CPlaybackStatus::Playing => PlaybackStatus::Playing,
        CPlaybackStatus::Paused => PlaybackStatus::Paused,
        CPlaybackStatus::Stopped => PlaybackStatus::Stopped,
        CPlaybackStatus::Transitioning => PlaybackStatus::Transitioning,
    }
}

/// The boundary form of a repeat mode.
pub open spec fn c_repeat_of(m: RepeatMode) -> CRepeatMode {
    match m {
        RepeatMode::Off => CRepeatMode::Off,
        RepeatMode::One => CRepeatMode::One,
        RepeatMode::All => CRepeatMode::All,
    }
}

/// The repeat mode of a boundary form.
pub open spec fn repeat_of_c(m: CRepeatMode) -> RepeatMode {
    match m {
        CRepeatMode::Off => RepeatMode::Off,
        CRepeatMode::One => RepeatMode::One,
        CRepeatMode::All => RepeatMode::All,
    }
}

impl From<PlaybackStatus> for CPlaybackStatus {
    fn from(status: PlaybackStatus) -> (r: CPlaybackStatus) {
        match status {
            PlaybackStatus::Playing => CPlaybackStatus::Playing,
            PlaybackStatus::Paused => CPlaybackStatus::Paused,
            PlaybackStatus::Stopped => CPlaybackStatus::Stopped,
            PlaybackStatus::Transitioning => CPlaybackStatus::Transitioning,
        }
    }
}

impl vstd::std_specs::convert::FromSpecImpl<PlaybackStatus> for CPlaybackStatus {
    open spec fn obeys_from_spec() -> bool {
        true
    }

    open spec fn from_spec(v: PlaybackStatus) -> CPlaybackStatus {
        c_status_of(v)
    }
}

impl From<CPlaybackStatus> for PlaybackStatus {
    fn from(status: CPlaybackStatus) -> (r: PlaybackStatus) {
        match status {
            CPlaybackStatus::Playing => PlaybackStatus::Playing,
            CPlaybackStatus::Paused => PlaybackStatus::Paused,
            CPlaybackStatus::Stopped => PlaybackStatus::Stopped,
            CPlaybackStatus::Transitioning => PlaybackStatus::Transitioning,
        }
    }
}

impl vstd::std_specs::convert::FromSpecImpl<CPlaybackStatus> for PlaybackStatus {
    open spec fn obeys_from_spec() -> bool {
        true
    }

    open spec fn from_spec(v: CPlaybackStatus) -> PlaybackStatus {
        status_of_c(v)
    }
}

impl From<RepeatMode> for CRepeatMode {
    fn from(mode: RepeatMode) -> (r: CRepeatMode) {
        match mode {
            RepeatMode::Off => CRepeatMode::Off,
            RepeatMode::One => CRepeatMode::One,
            RepeatMode::All => CRepeatMode::All,
        }
    }
}

impl vstd::std_specs::convert::FromSpecImpl<RepeatMode> for CRepeatMode {
    open spec fn obeys_from_spec() -> bool {
        true
    }

    open spec fn from_spec(v: RepeatMode) -> CRepeatMode {
        c_repeat_of(v)
    }
}

impl From<CRepeatMode> for RepeatMode {
    fn from(mode: CRepeatMode) -> (r: RepeatMode) {
        match mode {
            CRepeatMode::Off => RepeatMode::Off,
            CRepeatMode::One => RepeatMode::One,
            CRepeatMode::All => RepeatMode::All,
        }
    }
}

impl vstd::std_specs::convert::FromSpecImpl<CRepeatMode> for RepeatMode {
    open spec fn obeys_from_spec() -> bool {
        true
    }

    open spec fn from_spec(v: CRepeatMode) -> RepeatMode {
        repeat_of_c(v)
    }
}

/// The numeric code of a playback status at the boundary.
pub open spec fn status_code(s: CPlaybackStatus) -> i32 {
    match s {
        CPlaybackStatus::Playing => 0,
        CPlaybackStatus::Paused => 1,
        CPlaybackStatus::Stopped => 2,
        CPlaybackStatus::Transitioning => 3,
    }
}

/// The numeric code of a repeat mode at the boundary.
pub open spec fn repeat_code(m: CRepeatMode) -> i32 {
    match m {
        CRepeatMode::Off => 0,
        CRepeatMode::One => 1,
        CRepeatMode::All => 2,
    }
}

/// The numeric code of a result at the boundary.
pub open spec fn result_code(r: CResult) -> i32 {
    match r {
        CResult::Success => 0,
        CResult::Error => 1,
        CResult::NoSession => 2,
        CResult::NotSupported => 3,
        CResult::Timeout => 4,
        CResult::InvalidArg => 5,
    }
}

/// The numeric code of an event kind at the boundary.
pub open spec fn event_code(e: CEventType) -> i32 {
    match e {
        CEventType::MetadataChanged => 0,
        CEventType::PlaybackStatusChanged => 1,
        CEventType::PositionChanged => 2,
        CEventType::SessionOpened => 3,
        CEventType::SessionClosed => 4,
        CEventType::ArtworkChanged => 5,
        CEventType::VolumeChanged => 6,
        CEventType::RepeatModeChanged => 7,
    }
}

/// The result code that reports an outcome: each error kind that has a code of
/// its own maps to it, every other error to `Error`.
pub open spec fn result_of(r: MediaResult<()>) -> CResult {
    match r {
        Ok(()) => CResult::Success,
        Err(MediaError::NoSession) => CResult::NoSession,
        Err(MediaError::NotSupported(_)) => CResult::NotSupported,
        Err(MediaError::Timeout(_)) => CResult::Timeout,
        Err(MediaError::InvalidArgument(_)) => CResult::InvalidArg,
        Err(_) => CResult::Error,
    }
}

impl CPlaybackStatus {
    /// The numeric code of this status.
    pub fn code(self) -> (r: i32)
        ensures
            r == status_code(self),
    {
        match self {
            CPlaybackStatus::Playing => 0,
            CPlaybackStatus::Paused => 1,
            CPlaybackStatus::Stopped => 2,
            CPlaybackStatus::Transitioning => 3,
        }
    }
}

impl CRepeatMode {
    /// The numeric code of this mode.
    pub fn code(self) -> (r: i32)
        ensures
            r == repeat_code(self),
    {
        match self {
            CRepeatMode::Off => 0,
            CRepeatMode::One => 1,
            CRepeatMode::All => 2,
        }
    }

    /// The mode with numeric code `code`, if there is one.
    pub fn from_code(code: i32) -> (r: Option<CRepeatMode>)
        ensures
            r is Some <==> 0 <= code <= 2,
            r is Some ==> repeat_code(r->Some_0) == code,
    {
        if code == 0 {
            Some(CRepeatMode::Off)
        } else if code == 1 {
            Some(CRepeatMode::One)
        } else if code == 2 {
            Some(CRepeatMode::All)
        } else {
            None
        }
    }
}

impl CResult {
    /// The numeric code of this result.
    pub fn code(self) -> (r: i32)
        ensures
            r == result_code(self),
    {
        match self {
            CResult::Success => 0,
            CResult::Error => 1,
            CResult::NoSession => 2,
            CResult::NotSupported => 3,
            CResult::Timeout => 4,
            CResult::InvalidArg => 5,
        }
    }

    /// The result code that reports `r`.
    pub fn of(r: &MediaResult<()>) -> (c: CResult)
        ensures
            c == result_of(*r),
    {
        match r {
            Ok(()) => CResult::Success,
            Err(MediaError::NoSession) => CResult::NoSession,
            Err(MediaError::NotSupported(_)) => CResult::NotSupported,
            Err(MediaError::Timeout(_)) => CResult::Timeout,
            Err(MediaError::InvalidArgument(_)) => CResult::InvalidArg,
            Err(_) => CResult::Error,
        }
    }
}

impl CEventType {
    /// The numeric code of this event kind.
    pub fn code(self) -> (r: i32)
        ensures
            r == event_code(self),
    {
        match self {
            CEventType::MetadataChanged => 0,
            CEventType::PlaybackStatusChanged => 1,
            CEventType::PositionChanged => 2,
            CEventType::SessionOpened => 3,
            CEventType::SessionClosed => 4,
            CEventType::ArtworkChanged => 5,
            CEventType::VolumeChanged => 6,
            CEventType::RepeatModeChanged => 7,
        }
    }

    /// The kind of an event.
    pub fn of(e: &MediaSessionEvent) -> (r: CEventType)
        ensures
            r == match *e {
                MediaSessionEvent::MetadataChanged(_) => CEventType::MetadataChanged,
                MediaSessionEvent::PlaybackStatusChanged(_) => CEventType::PlaybackStatusChanged,
                MediaSessionEvent::PositionChanged { .. } => CEventType::PositionChanged,
                MediaSessionEvent::SessionOpened { .. } => CEventType::SessionOpened,
                MediaSessionEvent::SessionClosed => CEventType::SessionClosed,
                MediaSessionEvent::ArtworkChanged => CEventType::ArtworkChanged,
                MediaSessionEvent::VolumeChanged { .. } => CEventType::VolumeChanged,
                MediaSessionEvent::RepeatModeChanged { .. } => CEventType::RepeatModeChanged,
            },
    {
        match e {
            MediaSessionEvent::MetadataChanged(_) => CEventType::MetadataChanged,
            MediaSessionEvent::PlaybackStatusChanged(_) => CEventType::PlaybackStatusChanged,
            MediaSessionEvent::PositionChanged { .. } => CEventType::PositionChanged,
            MediaSessionEvent::SessionOpened { .. } => CEventType::SessionOpened,
            MediaSessionEvent::SessionClosed => CEventType::SessionClosed,
            MediaSessionEvent::ArtworkChanged => CEventType::ArtworkChanged,
            MediaSessionEvent::VolumeChanged { .. } => CEventType::VolumeChanged,
            MediaSessionEvent::RepeatModeChanged { .. } => CEventType::RepeatModeChanged,
        }
    }
}

} // verus!
