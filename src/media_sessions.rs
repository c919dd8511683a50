//! Session events, repeat modes and the validated configuration of the facade.
use vstd::prelude::*;

use crate::error::{MediaError, MediaResult};
use crate::media_info::{MediaInfo, PlaybackStatus};
use crate::time::Duration;

verus! {

/// Debounce window applied when none is configured, in milliseconds.
pub const DEFAULT_DEBOUNCE_MILLIS: u64 = 800;

/// Deadline of each dispatched operation when none is configured, in milliseconds.
pub const DEFAULT_OPERATION_TIMEOUT_MILLIS: u64 = 5000;

/// Largest accepted debounce window, in milliseconds.
pub const MAX_DEBOUNCE_MILLIS: u64 = 60_000;

/// Largest accepted operation deadline, in milliseconds.
pub const MAX_OPERATION_TIMEOUT_MILLIS: u64 = 300_000;

/// A change of the observed media session.
#[derive(Clone, Debug, PartialEq, Eq)]
pub enum MediaSessionEvent {
    /// Title or artist changed; carries the new snapshot.
    MetadataChanged(MediaInfo),
    /// The playback status changed.
    PlaybackStatusChanged(PlaybackStatus),
    /// The position jumped.
    PositionChanged {
        /// New playback position.
        position: Duration,
        /// Previous position, if one was known.
        old_position: Option<Duration>,
    },
    /// A media session became active.
    SessionOpened {
        /// Name of the media player application.
        app_name: String,
    },
    /// The active media session closed.
    SessionClosed,
    /// The artwork changed; the bytes are fetched separately.
    ArtworkChanged,
    /// The volume changed.
    VolumeChanged {
        /// New volume in thousandths of full scale: 0 is muted, 1000 is full scale.
        volume: u16,
    },
    /// The repeat or shuffle mode changed.
    RepeatModeChanged {
        /// Repeat mode.
        repeat: RepeatMode,
        /// Whether shuffle is on.
        shuffle: bool,
    },
}

/// Repeat mode of playback.
#[derive(Clone, Copy, Debug, PartialEq, Eq, Structural, Hash)]
pub enum RepeatMode {
    /// Repeat is disabled.
    Off,
    /// Repeat the current track.
    One,
    /// Repeat the entire playlist or album.
    All,
}

impl Default for RepeatMode {
    /// Repeat is off unless set.
    fn default() -> (r: RepeatMode)
        ensures
            r == RepeatMode::Off,
    {
        RepeatMode::Off
    }
}

/// Whether `d` is an accepted debounce window: more than zero, at most a minute.
pub open spec fn valid_debounce(d: Duration) -> bool {
    0 < d.millis <= MAX_DEBOUNCE_MILLIS
}

/// Whether `d` is an accepted operation deadline: more than zero, at most five minutes.
pub open spec fn valid_timeout(d: Duration) -> bool {
    0 < d.millis <= MAX_OPERATION_TIMEOUT_MILLIS
}

/// Configuration of the facade: debounce window, operation deadline, and whether
/// artwork is fetched. Every value it holds lies within the accepted bounds.
#[derive(Clone, Copy, Debug, PartialEq, Eq)]
pub struct MediaSessionsBuilder {
    debounce_duration: Duration,
    operation_timeout: Duration,
    enable_artwork: bool,
}

impl MediaSessionsBuilder {
    #[verifier::type_invariant]
    spec fn wf(self) -> bool {
        valid_debounce(self.debounce_duration) && valid_timeout(self.operation_timeout)
    }

    /// The configured debounce window.
    pub closed spec fn spec_debounce(self) -> Duration {
        self.debounce_duration
    }

    /// The configured operation deadline.
    pub closed spec fn spec_timeout(self) -> Duration {
        self.operation_timeout
    }

    /// Whether artwork fetching is configured.
    pub closed spec fn spec_artwork(self) -> bool {
        self.enable_artwork
    }

    /// A configuration with a debounce of 800 ms, a deadline of 5 s and artwork on.
    pub fn new() -> (r: MediaSessionsBuilder)
        ensures
            r.spec_debounce().millis == DEFAULT_DEBOUNCE_MILLIS,
            r.spec_timeout().millis == DEFAULT_OPERATION_TIMEOUT_MILLIS,
            r.spec_artwork(),
    {
        MediaSessionsBuilder {
            debounce_duration: Duration::from_millis(DEFAULT_DEBOUNCE_MILLIS),
            operation_timeout: Duration::from_millis(DEFAULT_OPERATION_TIMEOUT_MILLIS),
            enable_artwork: true,
        }
    }

    /// Sets the debounce window; fails with `InvalidArgument` unless
    /// `0 < duration <= 60 s`.
    pub fn debounce_duration(self, duration: Duration) -> (r: MediaResult<MediaSessionsBuilder>)
        ensures
            valid_debounce(duration) <==> r is Ok,
            r is Ok ==> r->Ok_0.spec_debounce() == duration && r->Ok_0.spec_timeout()
                == self.spec_timeout() && r->Ok_0.spec_artwork() == self.spec_artwork(),
            r is Err ==> r->Err_0 is InvalidArgument,
    {
        proof {
            use_type_invariant(&self);
        }
        if duration.millis > 0 && duration.millis <= MAX_DEBOUNCE_MILLIS {
            Ok(MediaSessionsBuilder { debounce_duration: duration, ..self })
        } else {
            Err(
                MediaError::InvalidArgument(
                    String::from_str("debounce_duration must be between 0 and 60 seconds"),
                ),
            )
        }
    }

    /// Sets the operation deadline; fails with `InvalidArgument` unless
    /// `0 < duration <= 300 s`.
    pub fn operation_timeout(self, duration: Duration) -> (r: MediaResult<MediaSessionsBuilder>)
        ensures
            valid_timeout(duration) <==> r is Ok,
            r is Ok ==> r->Ok_0.spec_timeout() == duration && r->Ok_0.spec_debounce()
                == self.spec_debounce() && r->Ok_0.spec_artwork() == self.spec_artwork(),
            r is Err ==> r->Err_0 is InvalidArgument,
    {
        proof {
            use_type_invariant(&self);
        }
        if duration.millis > 0 && duration.millis <= MAX_OPERATION_TIMEOUT_MILLIS {
            Ok(MediaSessionsBuilder { operation_timeout: duration, ..self })
        } else {
            Err(
                MediaError::InvalidArgument(
                    String::from_str("operation_timeout must be between 0 and 300 seconds"),
                ),
            )
        }
    }

    /// Enables or disables artwork fetching.
    pub fn enable_artwork(self, enabled: bool) -> (r: MediaSessionsBuilder)
        ensures
            r.spec_artwork() == enabled,
            r.spec_debounce() == self.spec_debounce(),
            r.spec_timeout() == self.spec_timeout(),
    {
        proof {
            use_type_invariant(&self);
        }
        MediaSessionsBuilder { enable_artwork: enabled, ..self }
    }

    /// The configured debounce window.
    pub fn debounce(&self) -> (r: Duration)
        ensures
            r == self.spec_debounce(),
            valid_debounce(r),
    {
        proof {
            use_type_invariant(self);
        }
        self.debounce_duration
    }

    /// The configured operation deadline.
    pub fn timeout(&self) -> (r: Duration)
        ensures
            r == self.spec_timeout(),
            valid_timeout(r),
    {
        proof {
            use_type_invariant(self);
        }
        self.operation_timeout
    }

    /// Whether artwork is fetched.
    pub fn artwork_enabled(&self) -> (r: bool)
        ensures
            r == self.spec_artwork(),
    {
        self.enable_artwork
    }
}

impl Default for MediaSessionsBuilder {
    /// The same configuration as `new`.
    fn default() -> (r: MediaSessionsBuilder)
        ensures
            r.spec_debounce().millis == DEFAULT_DEBOUNCE_MILLIS,
            r.spec_timeout().millis == DEFAULT_OPERATION_TIMEOUT_MILLIS,
            r.spec_artwork(),
    {
        MediaSessionsBuilder::new()
    }
}

} // verus!
