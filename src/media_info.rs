//! The canonical snapshot of a media session and its playback status.
use vstd::prelude::*;
use vstd::string::*;

use crate::text::{push_signed_decimal, signed_decimal};
use crate::time::Duration;

verus! {

/// Playback status of a media session.
#[derive(Clone, Copy, Debug, PartialEq, Eq, Structural, Hash)]
pub enum PlaybackStatus {
    /// Media is currently playing.
    Playing,
    /// Media is currently paused.
    Paused,
    /// Media is stopped.
    Stopped,
    /// Any native status that cannot be mapped with confidence.
    Transitioning,
}

/// The lower-case name of a playback status.
pub open spec fn status_text(s: PlaybackStatus) -> Seq<char> {
    match s {
        PlaybackStatus::Playing => "playing"@,
        PlaybackStatus::Paused => "paused"@,
        PlaybackStatus::Stopped => "stopped"@,
        PlaybackStatus::Transitioning => "transitioning"@,
    }
}

impl Default for PlaybackStatus {
    /// A session whose status is not reported counts as stopped.
    fn default() -> (r: PlaybackStatus)
        ensures
            r == PlaybackStatus::Stopped,
    {
        PlaybackStatus::Stopped
    }
}

impl PlaybackStatus {
    /// Returns `true` if the status is `Playing`.
    pub fn is_playing(self) -> (r: bool)
        ensures
            r == (self == PlaybackStatus::Playing),
    {
        matches!(self, PlaybackStatus::Playing)
    }

    /// Returns `true` if the status is `Paused`.
    pub fn is_paused(self) -> (r: bool)
        ensures
            r == (self == PlaybackStatus::Paused),
    {
        matches!(self, PlaybackStatus::Paused)
    }

    /// Returns `true` if the status is `Stopped`.
    pub fn is_stopped(self) -> (r: bool)
        ensures
            r == (self == PlaybackStatus::Stopped),
    {
        matches!(self, PlaybackStatus::Stopped)
    }

    /// Returns the lower-case name of the status.
    pub fn as_str(self) -> (r: &'static str)
        ensures
            r@ == status_text(self),
    {
        match self {
            PlaybackStatus::Playing => "playing",
            PlaybackStatus::Paused => "paused",
            PlaybackStatus::Stopped => "stopped",
            PlaybackStatus::Transitioning => "transitioning",
        }
    }

    /// Returns the lower-case name of the status as an owned string.
    pub fn to_string(self) -> (r: String)
        ensures
            r@ == status_text(self),
    {
        String::from_str(self.as_str())
    }
}

/// Type of media content.
#[derive(Clone, Copy, Debug, PartialEq, Eq, Structural, Hash)]
pub enum MediaType {
    /// Music track.
    Music,
    /// Video content.
    Video,
    /// Podcast episode.
    Podcast,
    /// Audiobook chapter.
    Audiobook,
    /// Radio stream.
    Radio,
    /// Movie or TV show.
    Movie,
    /// Unknown or unspecified type.
    Unknown,
}

/// A snapshot of the metadata and playback state of a session at one moment.
///
/// Every field is optional except the playback status. A position beyond the
/// duration is allowed: native sources can report overshoot.
#[derive(Clone, Debug, PartialEq, Eq)]
pub struct MediaInfo {
    /// Track title.
    pub title: Option<String>,
    /// Track artist or performer.
    pub artist: Option<String>,
    /// Album name.
    pub album: Option<String>,
    /// Total duration of the track.
    pub duration: Option<Duration>,
    /// Current playback position.
    pub position: Option<Duration>,
    /// Current playback status.
    pub playback_status: PlaybackStatus,
    /// Raw artwork image bytes.
    pub artwork: Option<Vec<u8>>,
    /// Track number within the album.
    pub track_number: Option<u32>,
    /// Disc number for multi-disc albums.
    pub disc_number: Option<u32>,
    /// Genre classification.
    pub genre: Option<String>,
    /// Release year.
    pub year: Option<i32>,
    /// Source URL or identifier.
    pub url: Option<String>,
    /// Thumbnail URL.
    pub thumbnail_url: Option<String>,
    /// Media type hint.
    pub media_type: Option<MediaType>,
}

/// The text of an optional string, empty when absent.
pub open spec fn opt_text(o: Option<String>) -> Seq<char> {
    match o {
        Some(s) => s@,
        None => Seq::empty(),
    }
}

/// The "Artist - Title" line of a snapshot; either part alone when the other is empty.
pub open spec fn display_text(info: MediaInfo) -> Seq<char> {
    let a = opt_text(info.artist);
    let t = opt_text(info.title);
    if a.len() == 0 {
        t
    } else if t.len() == 0 {
        a
    } else {
        a + " - "@ + t
    }
}

/// The full one-line description: the display line, then ` (Album)` and ` [Year]`
/// when those fields are present.
pub open spec fn description_text(info: MediaInfo) -> Seq<char> {
    display_text(info) + match info.album {
        Some(al) => " ("@ + al@ + ")"@,
        None => Seq::empty(),
    } + match info.year {
        Some(y) => " ["@ + signed_decimal(y as int) + "]"@,
        None => Seq::empty(),
    }
}

/// The whole seconds of an optional span, zero when absent.
pub open spec fn opt_secs(d: Option<Duration>) -> u64 {
    match d {
        Some(d) => (d.millis / 1000) as u64,
        None => 0,
    }
}

/// The image format that the leading bytes of an artwork payload announce.
pub open spec fn image_format(b: Seq<u8>) -> Option<Seq<char>> {
    if b.len() >= 4 && b[0] == 0x89 && b[1] == 0x50 && b[2] == 0x4E && b[3] == 0x47 {
        Some("PNG"@)
    } else if b.len() >= 3 && b[0] == 0xFF && b[1] == 0xD8 && b[2] == 0xFF {
        Some("JPEG"@)
    } else if b.len() >= 4 && b[0] == 0x47 && b[1] == 0x49 && b[2] == 0x46 && b[3] == 0x38 {
        Some("GIF"@)
    } else {
        None
    }
}

/// The progress of playback as a fraction `(numerator, denominator)`:
/// the position clamped to the duration, over the duration. It is `0 / 1` where
/// either is absent or the duration is zero.
pub open spec fn progress_of(info: MediaInfo) -> (u64, u64) {
    match (info.duration, info.position) {
        (Some(d), Some(p)) => if d.millis > 0 {
            (if p.millis <= d.millis { p.millis } else { d.millis }, d.millis)
        } else {
            (0, 1)
        },
        _ => (0, 1),
    }
}

/// The text of an optional string as a `&str`.
fn opt_str(o: &Option<String>) -> (r: &str)
    ensures
        r@ == opt_text(*o),
{
    match o {
        Some(s) => s.as_str(),
        None => {
            proof {
                reveal_strlit("");
            }
            ""
        },
    }
}

impl Default for MediaInfo {
    /// A snapshot with every optional field absent and a stopped status.
    fn default() -> (r: MediaInfo)
        ensures
            r == (MediaInfo {
                title: None,
                artist: None,
                album: None,
                duration: None,
                position: None,
                playback_status: PlaybackStatus::Stopped,
                artwork: None,
                track_number: None,
                disc_number: None,
                genre: None,
                year: None,
                url: None,
                thumbnail_url: None,
                media_type: None,
            }),
    {
        MediaInfo {
            title: None,
            artist: None,
            album: None,
            duration: None,
            position: None,
            playback_status: PlaybackStatus::Stopped,
            artwork: None,
            track_number: None,
            disc_number: None,
            genre: None,
            year: None,
            url: None,
            thumbnail_url: None,
            media_type: None,
        }
    }
}

impl MediaInfo {
    /// Returns the track title, or an empty string if unavailable.
    pub fn title(&self) -> (r: &str)
        ensures
            r@ == opt_text(self.title),
    {
        opt_str(&self.title)
    }

    /// Returns the artist name, or an empty string if unavailable.
    pub fn artist(&self) -> (r: &str)
        ensures
            r@ == opt_text(self.artist),
    {
        opt_str(&self.artist)
    }

    /// Returns the album name, or an empty string if unavailable.
    pub fn album(&self) -> (r: &str)
        ensures
            r@ == opt_text(self.album),
    {
        opt_str(&self.album)
    }

    /// Returns "Artist - Title", or whichever of the two is not empty.
    pub fn display_string(&self) -> (r: String)
        ensures
            r@ == display_text(*self),
    {
        let artist = self.artist();
        let title = self.title();
        if artist.is_empty() {
            String::from_str(title)
        } else if title.is_empty() {
            String::from_str(artist)
        } else {
            String::from_str(artist).concat(" - ").concat(title)
        }
    }

    /// Returns the display line followed by ` (Album)` and ` [Year]` when present.
    pub fn to_string(&self) -> (r: String)
        ensures
            r@ == description_text(*self),
    {
        let mut out = self.display_string();
        match &self.album {
            Some(album) => {
                out.append(" (");
                out.append(album.as_str());
                out.append(")");
            },
            None => {},
        }
        match self.year {
            Some(year) => {
                out.append(" [");
                push_signed_decimal(&mut out, year);
                out.append("]");
            },
            None => {},
        }
        assert(out@ =~= description_text(*self));
        out
    }

    /// Returns the duration in whole seconds, or 0 if unavailable.
    pub fn duration_secs(&self) -> (r: u64)
        ensures
            r == opt_secs(self.duration),
    {
        match self.duration {
            Some(d) => d.as_secs(),
            None => 0,
        }
    }

    /// Returns the position in whole seconds, or 0 if unavailable.
    pub fn position_secs(&self) -> (r: u64)
        ensures
            r == opt_secs(self.position),
    {
        match self.position {
            Some(p) => p.as_secs(),
            None => 0,
        }
    }

    /// Returns the progress as a fraction `(numerator, denominator)` with
    /// `numerator <= denominator` and a positive denominator.
    pub fn progress_fraction(&self) -> (r: (u64, u64))
        ensures
            r == progress_of(*self),
            r.0 <= r.1,
            r.1 > 0,
    {
        match (self.duration, self.position) {
            (Some(d), Some(p)) => {
                if d.millis > 0 {
                    if p.millis <= d.millis {
                        (p.millis, d.millis)
                    } else {
                        (d.millis, d.millis)
                    }
                } else {
                    (0, 1)
                }
            },
            _ => (0, 1),
        }
    }

    /// Returns true if the track is currently playing.
    pub fn is_playing(&self) -> (r: bool)
        ensures
            r == (self.playback_status == PlaybackStatus::Playing),
    {
        self.playback_status.is_playing()
    }

    /// Returns true if the track is currently paused.
    pub fn is_paused(&self) -> (r: bool)
        ensures
            r == (self.playback_status == PlaybackStatus::Paused),
    {
        self.playback_status.is_paused()
    }

    /// Returns the image format that the artwork's leading bytes announce.
    pub fn artwork_format(&self) -> (r: Option<&'static str>)
        ensures
            match self.artwork {
                Some(a) => match r {
                    Some(s) => image_format(a@) == Some(s@),
                    None => image_format(a@) is None,
                },
                None => r is None,
            },
    {
        match &self.artwork {
            Some(data) => {
                let n = data.len();
                if n >= 4 && data[0] == 0x89 && data[1] == 0x50 && data[2] == 0x4E && data[3]
                    == 0x47 {
                    Some("PNG")
                } else if n >= 3 && data[0] == 0xFF && data[1] == 0xD8 && data[2] == 0xFF {
                    Some("JPEG")
                } else if n >= 4 && data[0] == 0x47 && data[1] == 0x49 && data[2] == 0x46
                    && data[3] == 0x38 {
                    Some("GIF")
                } else {
                    None
                }
            },
            None => None,
        }
    }
}

} // verus!
