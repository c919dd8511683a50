//! Uniform observation and control of the media session that is active on the host.
//!
//! The library holds the canonical data model (snapshots, statuses, events), the
//! closed error taxonomy, the change detector that turns periodic samples into a
//! debounced event stream, the decisions of the deadline-bound command dispatcher,
//! and the conversions that adapters apply to what native session APIs report.
pub mod detector;
pub mod dispatch;
pub mod error;
pub mod ffi;
pub mod media_info;
pub mod media_sessions;
pub mod platform;
pub mod text;
pub mod time;

pub use detector::{Debouncer, Detector, DetectorState, Observed, Sample};
pub use error::{MediaError, MediaResult};
pub use media_info::{MediaInfo, MediaType, PlaybackStatus};
pub use media_sessions::{MediaSessionEvent, MediaSessionsBuilder, RepeatMode};
pub use platform::{available_platforms, current_platform};
pub use time::Duration;
