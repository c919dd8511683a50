//! Decisions of the command dispatcher, which bounds every adapter call by a
//! deadline and validates arguments before anything reaches an adapter.
use vstd::prelude::*;

use crate::error::{MediaError, MediaResult};
use crate::media_info::MediaInfo;
use crate::time::Duration;

verus! {

/// The result of a dispatched call: what the adapter returned when it completed
/// within `deadline` (`Some`), else a `Timeout` carrying the deadline. The native
/// call itself is not cancelled; only the wait is bounded.
pub fn settle<T>(outcome: Option<MediaResult<T>>, deadline: Duration) -> (r: MediaResult<T>)
    ensures
        r == match outcome {
            Some(x) => x,
            None => Err(MediaError::Timeout(deadline)),
        },
{
    match outcome {
        Some(x) => x,
        None => Err(MediaError::Timeout(deadline)),
    }
}

/// Checks a seek target against the last known track length: beyond it, the seek
/// is refused with `SeekOutOfRange` and must not be forwarded to the adapter.
pub fn check_seek(position: Duration, known_duration: Option<Duration>) -> (r: MediaResult<()>)
    ensures
        r == match known_duration {
            Some(d) => if position.millis > d.millis {
                Err(MediaError::SeekOutOfRange { requested: position, duration: d })
            } else {
                Ok(())
            },
            None => Ok(()),
        },
{
    match known_duration {
        Some(d) => {
            if position.millis > d.millis {
                Err(MediaError::SeekOutOfRange { requested: position, duration: d })
            } else {
                Ok(())
            }
        },
        None => Ok(()),
    }
}

/// Whether a one-shot query should fetch artwork for `info`: artwork is enabled
/// and the snapshot carries none.
pub fn wants_artwork(enabled: bool, info: &MediaInfo) -> (r: bool)
    ensures
        r == (enabled && info.artwork is None),
{
    enabled && info.artwork.is_none()
}

/// `info` with the artwork that a separate fetch returned; a failed fetch leaves
/// it without artwork.
pub fn with_artwork(info: MediaInfo, fetched: MediaResult<Option<Vec<u8>>>) -> (r: MediaInfo)
    ensures
        r == (MediaInfo {
            artwork: match fetched {
                Ok(a) => a,
                Err(_) => None,
            },
            ..info
        }),
{
    let artwork = match fetched {
        Ok(a) => a,
        Err(_) => None,
    };
    MediaInfo { artwork, ..info }
}

} // verus!
