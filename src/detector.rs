//! The change detector: turns snapshots sampled on a fixed cadence into an
//! ordered, de-duplicated and debounced stream of session events.
use vstd::prelude::*;

use crate::error::{MediaError, MediaResult};
use crate::media_info::{MediaInfo, PlaybackStatus};
use crate::media_sessions::MediaSessionEvent;
use crate::time::Duration;

verus! {

/// Position difference between two consecutive samples beyond which the
/// position counts as having jumped, in milliseconds.
pub const POSITION_JUMP_THRESHOLD_MILLIS: u64 = 1000;

/// Sampling cadence of the message-bus adapter, in milliseconds.
pub const BUS_POLL_INTERVAL_MILLIS: u64 = 500;

/// Sampling cadence of the native session-transport adapter, in milliseconds.
pub const TRANSPORT_POLL_INTERVAL_MILLIS: u64 = 250;

/// Sampling cadence of the opaque framework adapter, in milliseconds.
pub const FRAMEWORK_POLL_INTERVAL_MILLIS: u64 = 500;

/// Enforces a minimum spacing between successive emissions.
#[derive(Clone, Copy, Debug, PartialEq, Eq, Structural)]
pub struct Debouncer {
    /// The minimum spacing.
    pub duration: Duration,
    /// When the last emission happened, if any did.
    pub last_emit: Option<Duration>,
}

/// Time from `earlier` to `now`, zero where `earlier` is later.
pub open spec fn elapsed(now: Duration, earlier: Duration) -> int {
    if now.millis >= earlier.millis {
        now.millis - earlier.millis
    } else {
        0
    }
}

/// Whether an emission at `now` falls inside the window of the last one.
pub open spec fn debounce_blocks(d: Debouncer, now: Duration) -> bool {
    match d.last_emit {
        Some(prev) => elapsed(now, prev) < d.duration.millis,
        None => false,
    }
}

impl Debouncer {
    /// A debouncer with the given spacing that has not emitted yet.
    pub fn new(duration: Duration) -> (r: Debouncer)
        ensures
            r.duration == duration,
            r.last_emit is None,
    {
        Debouncer { duration, last_emit: None }
    }

    /// Decides whether an emission at `now` may go out, and records it if so.
    pub fn should_emit(&mut self, now: Duration) -> (r: bool)
        ensures
            r == !debounce_blocks(*old(self), now),
            final(self).duration == old(self).duration,
            final(self).last_emit == if r {
                Some(now)
            } else {
                old(self).last_emit
            },
    {
        let blocked = match self.last_emit {
            Some(prev) => now.saturating_sub(prev).millis < self.duration.millis,
            None => false,
        };
        if blocked {
            false
        } else {
            self.last_emit = Some(now);
            true
        }
    }
}

/// What one sampling tick found.
#[derive(Clone, Debug, PartialEq, Eq)]
pub enum Sample {
    /// No session is active.
    NoSession,
    /// A session is active, run by `app_name`, in the state `info`.
    Session {
        /// Name of the application that owns the session.
        app_name: String,
        /// The fresh snapshot.
        info: MediaInfo,
    },
    /// The sample could not be taken.
    Failed(MediaError),
}

/// What the classification compares a new snapshot with: the title, artist and
/// status of the last snapshot, and the position last reported in a
/// `PositionChanged` event.
#[derive(Clone, Debug, PartialEq, Eq)]
pub struct Observed {
    /// Track title of the last snapshot.
    pub title: Option<String>,
    /// Track artist of the last snapshot.
    pub artist: Option<String>,
    /// Playback status of the last snapshot.
    pub status: PlaybackStatus,
    /// The position of the last emitted position event of this session, if any.
    pub emitted_position: Option<Duration>,
}

/// The compared fields of a snapshot, with the last emitted position `emitted`.
pub open spec fn observe(info: MediaInfo, emitted: Option<Duration>) -> Observed {
    Observed {
        title: info.title,
        artist: info.artist,
        status: info.playback_status,
        emitted_position: emitted,
    }
}

/// What a freshly opened session is compared against: no metadata, stopped, and
/// no position emitted yet.
pub open spec fn blank() -> Observed {
    Observed {
        title: None,
        artist: None,
        status: PlaybackStatus::Stopped,
        emitted_position: None,
    }
}

/// The text of an optional string, if present.
pub open spec fn opt_view(o: Option<String>) -> Option<Seq<char>> {
    match o {
        Some(s) => Some(s@),
        None => None,
    }
}

/// Whether a new position lies more than `threshold` away from the last emitted
/// one, or is the first known position since none was emitted.
pub open spec fn position_jumped(
    old_pos: Option<Duration>,
    new_pos: Option<Duration>,
    threshold: Duration,
) -> bool {
    match (old_pos, new_pos) {
        (Some(o), Some(n)) => n.millis - o.millis > threshold.millis || o.millis - n.millis
            > threshold.millis,
        (None, Some(_)) => true,
        _ => false,
    }
}

/// The one event, in order of precedence, that a snapshot gives: metadata or
/// status against the previous snapshot, then the position against the last
/// emitted position.
pub open spec fn classify(prev: Observed, info: MediaInfo, threshold: Duration) -> Option<
    MediaSessionEvent,
> {
    if opt_view(prev.title) != opt_view(info.title) || opt_view(prev.artist) != opt_view(
        info.artist,
    ) {
        Some(MediaSessionEvent::MetadataChanged(info))
    } else if prev.status != info.playback_status {
        Some(MediaSessionEvent::PlaybackStatusChanged(info.playback_status))
    } else if position_jumped(prev.emitted_position, info.position, threshold) {
        Some(
            MediaSessionEvent::PositionChanged {
                position: info.position->Some_0,
                old_position: prev.emitted_position,
            },
        )
    } else {
        None
    }
}

/// Whether the detector currently tracks a session.
#[derive(Clone, Debug, PartialEq, Eq)]
pub enum DetectorState {
    /// No session is tracked.
    NoSession,
    /// A session is tracked; holds the compared fields of its last snapshot and
    /// its last emitted position.
    HasSession(Observed),
}

/// The change detector. It keeps the last snapshot of the tracked session and
/// the debouncer, which spaces metadata, status and position events; session
/// opening and closing bypass it.
#[derive(Clone, Debug, PartialEq, Eq)]
pub struct Detector {
    /// Spacing of metadata, status and position events.
    pub debouncer: Debouncer,
    /// Position difference that counts as a jump.
    pub jump_threshold: Duration,
    /// The tracked session.
    pub state: DetectorState,
}

/// One tick: the detector after it, and the items it emits, in order.
pub open spec fn tick_spec(d: Detector, sample: Sample, now: Duration) -> (
    Detector,
    Seq<MediaResult<MediaSessionEvent>>,
) {
    match sample {
        Sample::Failed(e) => (d, seq![Err(e)]),
        Sample::NoSession => match d.state {
            DetectorState::NoSession => (d, Seq::empty()),
            DetectorState::HasSession(_) => (
                Detector { state: DetectorState::NoSession, ..d },
                seq![Ok(MediaSessionEvent::SessionClosed)],
            ),
        },
        Sample::Session { app_name, info } => {
            let opened: Seq<MediaResult<MediaSessionEvent>> = match d.state {
                DetectorState::NoSession => seq![
                    Ok(MediaSessionEvent::SessionOpened { app_name: app_name }),
                ],
                DetectorState::HasSession(_) => Seq::empty(),
            };
            let prev = match d.state {
                DetectorState::NoSession => blank(),
                DetectorState::HasSession(o) => o,
            };
            let next = Detector {
                state: DetectorState::HasSession(observe(info, prev.emitted_position)),
                ..d
            };
            match classify(prev, info, d.jump_threshold) {
                None => (next, opened),
                Some(ev) => if debounce_blocks(d.debouncer, now) {
                    (next, opened)
                } else {
                    let emitted = if ev is PositionChanged {
                        info.position
                    } else {
                        prev.emitted_position
                    };
                    (
                        Detector {
                            debouncer: Debouncer { last_emit: Some(now), ..d.debouncer },
                            state: DetectorState::HasSession(observe(info, emitted)),
                            ..d
                        },
                        opened.push(Ok(ev)),
                    )
                },
            }
        },
    }
}

/// A copy of an optional string.
fn copy_text(o: &Option<String>) -> (r: Option<String>)
    ensures
        r == *o,
{
    match o {
        Some(s) => Some(s.clone()),
        None => None,
    }
}

/// Whether two optional strings hold the same text.
fn same_text(a: &Option<String>, b: &Option<String>) -> (r: bool)
    ensures
        r == (opt_view(*a) == opt_view(*b)),
{
    match (a, b) {
        (Some(x), Some(y)) => *x == *y,
        (None, None) => true,
        _ => false,
    }
}

/// Exec form of `position_jumped`.
fn jumped(old_pos: Option<Duration>, new_pos: Option<Duration>, threshold: Duration) -> (r: bool)
    ensures
        r == position_jumped(old_pos, new_pos, threshold),
{
    match (old_pos, new_pos) {
        (Some(o), Some(n)) => {
            if n.millis >= o.millis {
                n.millis - o.millis > threshold.millis
            } else {
                o.millis - n.millis > threshold.millis
            }
        },
        (None, Some(_)) => true,
        _ => false,
    }
}

impl Observed {
    /// The compared fields of `info`, with the last emitted position `emitted`.
    pub fn of(info: &MediaInfo, emitted: Option<Duration>) -> (r: Observed)
        ensures
            r == observe(*info, emitted),
    {
        Observed {
            title: copy_text(&info.title),
            artist: copy_text(&info.artist),
            status: info.playback_status,
            emitted_position: emitted,
        }
    }

    /// What a freshly opened session is compared against.
    pub fn blank() -> (r: Observed)
        ensures
            r == blank(),
    {
        Observed {
            title: None,
            artist: None,
            status: PlaybackStatus::Stopped,
            emitted_position: None,
        }
    }

    /// An identical copy.
    pub fn duplicate(&self) -> (r: Observed)
        ensures
            r == *self,
    {
        Observed {
            title: copy_text(&self.title),
            artist: copy_text(&self.artist),
            status: self.status,
            emitted_position: self.emitted_position,
        }
    }
}

/// Classifies `info` against `prev`: the event that it gives, if any.
pub fn classify_sample(prev: &Observed, info: MediaInfo, threshold: Duration) -> (r: Option<
    MediaSessionEvent,
>)
    ensures
        r == classify(*prev, info, threshold),
{
    if !same_text(&prev.title, &info.title) || !same_text(&prev.artist, &info.artist) {
        Some(MediaSessionEvent::MetadataChanged(info))
    } else if prev.status != info.playback_status {
        Some(MediaSessionEvent::PlaybackStatusChanged(info.playback_status))
    } else if jumped(prev.emitted_position, info.position, threshold) {
        match info.position {
            Some(position) => Some(
                MediaSessionEvent::PositionChanged {
                    position,
                    old_position: prev.emitted_position,
                },
            ),
            None => None,
        }
    } else {
        None
    }
}

impl Detector {
    /// A detector that tracks no session and has not emitted yet.
    pub fn new(debounce: Duration, jump_threshold: Duration) -> (r: Detector)
        ensures
            r.debouncer.duration == debounce,
            r.debouncer.last_emit is None,
            r.jump_threshold == jump_threshold,
            r.state is NoSession,
    {
        Detector {
            debouncer: Debouncer::new(debounce),
            jump_threshold,
            state: DetectorState::NoSession,
        }
    }

    /// Processes one sample taken at `now` and returns the items to deliver, in order.
    ///
    /// A failed sample is forwarded as an error and changes nothing. A session that
    /// opens or closes is always reported. Otherwise at most one of metadata, status
    /// or position change is reported, unless it falls inside the debounce window,
    /// in which case it is dropped; the snapshot is remembered either way. The
    /// position is compared with the last emitted position, which only an emitted
    /// position event updates, so a dropped jump is reported on a later tick.
    pub fn tick(&mut self, sample: Sample, now: Duration) -> (r: Vec<
        MediaResult<MediaSessionEvent>,
    >)
        ensures
            (*final(self), r@) == tick_spec(*old(self), sample, now),
    {
        let ghost s0 = sample;
        let mut out: Vec<MediaResult<MediaSessionEvent>> = Vec::new();
        match sample {
            Sample::Failed(e) => {
                out.push(Err(e));
            },
            Sample::NoSession => {
                let open = match &self.state {
                    DetectorState::HasSession(_) => true,
                    DetectorState::NoSession => false,
                };
                if open {
                    self.state = DetectorState::NoSession;
                    out.push(Ok(MediaSessionEvent::SessionClosed));
                }
            },
            Sample::Session { app_name, info } => {
                let prev = match &self.state {
                    DetectorState::NoSession => {
                        out.push(Ok(MediaSessionEvent::SessionOpened { app_name }));
                        Observed::blank()
                    },
                    DetectorState::HasSession(o) => o.duplicate(),
                };
                let mut observed = Observed::of(&info, prev.emitted_position);
                let change = classify_sample(&prev, info, self.jump_threshold);
                match change {
                    Some(ev) => {
                        if self.debouncer.should_emit(now) {
                            match &ev {
                                MediaSessionEvent::PositionChanged { position, .. } => {
                                    observed.emitted_position = Some(*position);
                                },
                                _ => {},
                            }
                            out.push(Ok(ev));
                        }
                    },
                    None => {},
                }
                self.state = DetectorState::HasSession(observed);
            },
        }
        assert(out@ =~= tick_spec(*old(self), s0, now).1);
        out
    }
}

} // verus!

verus! {

/// Whether an item is one of the kinds that the debouncer spaces: a metadata,
/// status or position change.
pub open spec fn is_debounced_kind(e: MediaResult<MediaSessionEvent>) -> bool {
    match e {
        Ok(MediaSessionEvent::MetadataChanged(_)) => true,
        Ok(MediaSessionEvent::PlaybackStatusChanged(_)) => true,
        Ok(MediaSessionEvent::PositionChanged { .. }) => true,
        _ => false,
    }
}

/// Whether the tick times never go backwards.
pub open spec fn monotone(ticks: Seq<(Sample, Duration)>) -> bool {
    forall|i: int, j: int| 0 <= i <= j < ticks.len() ==> ticks[i].1.millis <= ticks[j].1.millis
}

/// A run of ticks: the detector after the last one, and every emitted item
/// tagged with the time of the tick that emitted it, in order.
pub open spec fn run(d: Detector, ticks: Seq<(Sample, Duration)>) -> (
    Detector,
    Seq<(Duration, MediaResult<MediaSessionEvent>)>,
)
    decreases ticks.len(),
{
    if ticks.len() == 0 {
        (d, Seq::empty())
    } else {
        let (d1, out1) = run(d, ticks.drop_last());
        let (sample, now) = ticks.last();
        let (d2, evs) = tick_spec(d1, sample, now);
        (d2, out1 + evs.map_values(|e: MediaResult<MediaSessionEvent>| (now, e)))
    }
}

/// Whether an item is a position event.
pub open spec fn is_position_event(e: MediaResult<MediaSessionEvent>) -> bool {
    e matches Ok(MediaSessionEvent::PositionChanged { .. })
}

/// Whether the detector has settled on `sample`: it tracks exactly the title,
/// artist and status of the sample (or no session, for a sample without one), and
/// the sample's position is not a jump from the last emitted position.
pub open spec fn stable(d: Detector, sample: Sample) -> bool {
    match sample {
        Sample::NoSession => d.state is NoSession,
        Sample::Session { info, .. } => match d.state {
            DetectorState::HasSession(o) => o.title == info.title && o.artist == info.artist
                && o.status == info.playback_status && !position_jumped(
                o.emitted_position,
                info.position,
                d.jump_threshold,
            ),
            DetectorState::NoSession => false,
        },
        Sample::Failed(_) => false,
    }
}

/// A detector that has settled on a sample emits nothing for it and stays as it
/// is, at whatever time the tick happens.
pub proof fn lemma_settled_sample_is_silent(d: Detector, sample: Sample, now: Duration)
    requires
        stable(d, sample),
    ensures
        tick_spec(d, sample, now) == (d, Seq::<MediaResult<MediaSessionEvent>>::empty()),
{
    match sample {
        Sample::Session { app_name, info } => {
            let o = d.state->HasSession_0;
            assert(observe(info, o.emitted_position) == o);
            assert(classify(o, info, d.jump_threshold) is None);
            assert(Detector { state: DetectorState::HasSession(o), ..d } == d);
            assert(tick_spec(d, sample, now).1 =~= Seq::<MediaResult<MediaSessionEvent>>::empty());
        },
        _ => {},
    }
}

/// After one tick with a sample, only a position jump can still be pending: a
/// second tick with the same sample either emits nothing and changes nothing (the
/// detector had settled, or the debounce window holds the jump back), or emits
/// that one position event and settles.
pub proof fn lemma_second_tick_settles(d: Detector, sample: Sample, t1: Duration, t2: Duration)
    requires
        !(sample is Failed),
    ensures
        ({
            let d1 = tick_spec(d, sample, t1).0;
            let (d2, evs) = tick_spec(d1, sample, t2);
            ||| (d2 == d1 && evs.len() == 0)
            ||| (stable(d2, sample) && evs.len() == 1 && is_position_event(evs[0]))
        }),
{
    let d1 = tick_spec(d, sample, t1).0;
    match sample {
        Sample::Session { app_name, info } => {
            let o = d1.state->HasSession_0;
            assert(o.title == info.title && o.artist == info.artist && o.status
                == info.playback_status);
            assert(observe(info, o.emitted_position) == o);
            assert(Detector { state: DetectorState::HasSession(o), ..d1 } == d1);
            if position_jumped(o.emitted_position, info.position, d1.jump_threshold) {
                if !debounce_blocks(d1.debouncer, t2) {
                    let (d2, evs) = tick_spec(d1, sample, t2);
                    assert(!position_jumped(info.position, info.position, d1.jump_threshold));
                    assert(stable(d2, sample));
                    assert(evs.len() == 1);
                }
            } else {
                lemma_settled_sample_is_silent(d1, sample, t2);
            }
        },
        Sample::NoSession => {
            lemma_settled_sample_is_silent(d1, sample, t2);
        },
        _ => {},
    }
}

/// A run of identical samples emits, after the items of its first tick, at most
/// one more item: the position event that the first tick found pending. From the
/// tick that settles the detector on, the run is silent.
pub proof fn lemma_identical_run_settles(
    d: Detector,
    sample: Sample,
    ticks: Seq<(Sample, Duration)>,
)
    requires
        ticks.len() >= 1,
        !(sample is Failed),
        forall|i: int| 0 <= i < ticks.len() ==> (#[trigger] ticks[i]).0 == sample,
    ensures
        ({
            let (d1, evs) = tick_spec(d, sample, ticks[0].1);
            let first = evs.map_values(|e: MediaResult<MediaSessionEvent>| (ticks[0].1, e));
            let (dn, out) = run(d, ticks);
            ||| (dn == d1 && out == first)
            ||| (stable(dn, sample) && out.len() == first.len() + 1 && out.subrange(
                0,
                first.len() as int,
            ) == first && is_position_event(out.last().1))
        }),
    decreases ticks.len(),
{
    let t0 = ticks[0].1;
    let (d1, evs) = tick_spec(d, sample, t0);
    let first = evs.map_values(|e: MediaResult<MediaSessionEvent>| (t0, e));
    let prefix = ticks.drop_last();
    if ticks.len() == 1 {
        assert(prefix.len() == 0);
        assert(ticks.last() == ticks[0]);
        assert(Seq::<(Duration, MediaResult<MediaSessionEvent>)>::empty() + first =~= first);
    } else {
        assert forall|i: int| 0 <= i < prefix.len() implies (#[trigger] prefix[i]).0 == sample by {
            assert(prefix[i] == ticks[i]);
        }
        assert(prefix[0] == ticks[0]);
        lemma_identical_run_settles(d, sample, prefix);
        let (dp, outp) = run(d, prefix);
        let (sl, now) = ticks.last();
        assert(ticks.last() == ticks[ticks.len() - 1]);
        assert(sl == sample);
        let (dn, added) = tick_spec(dp, sample, now);
        let tagged = added.map_values(|e: MediaResult<MediaSessionEvent>| (now, e));
        assert(run(d, ticks) == (dn, outp + tagged));
        if dp == d1 && outp == first {
            lemma_second_tick_settles(d, sample, t0, now);
            if added.len() == 0 {
                assert(outp + tagged =~= first);
            } else {
                let out = outp + tagged;
                assert(out.subrange(0, first.len() as int) =~= first);
                assert(out.last() == tagged[0]);
            }
        } else {
            lemma_settled_sample_is_silent(dp, sample, now);
            assert(outp + tagged =~= outp);
        }
    }
}

/// A session that opens is always reported first, and a session that closes is
/// always reported, whatever the state of the debounce window.
pub proof fn lemma_session_transitions_never_suppressed(d: Detector, sample: Sample, now: Duration)
    ensures
        d.state is NoSession && sample is Session ==> {
            let evs = tick_spec(d, sample, now).1;
            evs.len() >= 1 && evs[0] == Ok::<MediaSessionEvent, MediaError>(
                MediaSessionEvent::SessionOpened { app_name: sample->app_name },
            )
        },
        d.state is HasSession && sample is NoSession ==> tick_spec(d, sample, now).1 == seq![
            Ok::<MediaSessionEvent, MediaError>(MediaSessionEvent::SessionClosed),
        ],
{
}

/// One tick emits at most one metadata, status or position event, always as its
/// last item; when it does, the debounce window was open, and a new one starts
/// at `now`. Otherwise the debouncer keeps its last emission time.
pub proof fn lemma_one_debounced_event_per_tick(d: Detector, sample: Sample, now: Duration)
    ensures
        ({
            let (d2, evs) = tick_spec(d, sample, now);
            &&& d2.debouncer.duration == d.debouncer.duration
            &&& forall|k: int| 0 <= k < evs.len() - 1 ==> !is_debounced_kind(#[trigger] evs[k])
            &&& if evs.len() > 0 && is_debounced_kind(evs.last()) {
                d2.debouncer.last_emit == Some(now) && !debounce_blocks(d.debouncer, now)
            } else {
                d2.debouncer.last_emit == d.debouncer.last_emit
            }
        }),
{
}

/// The invariant of a monotone run: every item is no later than the last tick,
/// the debouncer remembers a time no earlier than any debounced item, and any two
/// debounced items are at least the debounce window apart.
proof fn lemma_run_spacing(d: Detector, ticks: Seq<(Sample, Duration)>)
    requires
        monotone(ticks),
    ensures
        ({
            let (dn, out) = run(d, ticks);
            &&& dn.debouncer.duration == d.debouncer.duration
            &&& forall|i: int|
                0 <= i < out.len() ==> (#[trigger] out[i]).0.millis <= ticks.last().1.millis
            &&& forall|i: int|
                0 <= i < out.len() && is_debounced_kind((#[trigger] out[i]).1) ==> {
                    &&& dn.debouncer.last_emit is Some
                    &&& out[i].0.millis <= dn.debouncer.last_emit->Some_0.millis
                }
            &&& forall|i: int, j: int|
                0 <= i < j < out.len() && is_debounced_kind((#[trigger] out[i]).1)
                    && is_debounced_kind((#[trigger] out[j]).1) ==> out[j].0.millis
                    >= out[i].0.millis + d.debouncer.duration.millis
        }),
    decreases ticks.len(),
{
    if ticks.len() > 0 {
        let prefix = ticks.drop_last();
        assert(monotone(prefix));
        lemma_run_spacing(d, prefix);
        let (d1, out1) = run(d, prefix);
        let (sample, now) = ticks.last();
        let (d2, evs) = tick_spec(d1, sample, now);
        lemma_one_debounced_event_per_tick(d1, sample, now);
        let added = evs.map_values(|e: MediaResult<MediaSessionEvent>| (now, e));
        let out = out1 + added;
        assert(run(d, ticks) == (d2, out));
        let dur = d.debouncer.duration.millis;
        assert forall|i: int| 0 <= i < out1.len() implies (#[trigger] out1[i]).0.millis
            <= now.millis by {
            if prefix.len() > 0 {
                assert(prefix.last() == ticks[prefix.len() - 1]);
            }
        }
        assert forall|i: int| 0 <= i < out.len() implies (#[trigger] out[i]).0.millis
            <= ticks.last().1.millis by {
            if i < out1.len() {
                assert(out[i] == out1[i]);
            } else {
                assert(out[i] == added[i - out1.len()]);
            }
        }
        let emitted = evs.len() > 0 && is_debounced_kind(evs.last());
        assert forall|i: int|
            0 <= i < out.len() && is_debounced_kind((#[trigger] out[i]).1) implies {
            &&& d2.debouncer.last_emit is Some
            &&& out[i].0.millis <= d2.debouncer.last_emit->Some_0.millis
        } by {
            if i < out1.len() {
                assert(out[i] == out1[i]);
            } else {
                let k = i - out1.len();
                assert(out[i] == added[k]);
                assert(out[i].1 == evs[k]);
                if k < evs.len() - 1 {
                    assert(!is_debounced_kind(evs[k]));
                }
            }
        }
        assert forall|i: int, j: int|
            0 <= i < j < out.len() && is_debounced_kind((#[trigger] out[i]).1)
                && is_debounced_kind((#[trigger] out[j]).1) implies out[j].0.millis
                >= out[i].0.millis + dur by {
            if j < out1.len() {
                assert(out[i] == out1[i]);
                assert(out[j] == out1[j]);
            } else {
                let kj = j - out1.len();
                assert(out[j] == added[kj]);
                assert(out[j].1 == evs[kj]);
                if kj < evs.len() - 1 {
                    assert(!is_debounced_kind(evs[kj]));
                }
                assert(kj == evs.len() - 1);
                if i < out1.len() {
                    assert(out[i] == out1[i]);
                    assert(out1[i].0.millis <= now.millis);
                    let prev = d1.debouncer.last_emit->Some_0;
                    assert(out1[i].0.millis <= prev.millis);
                    assert(!debounce_blocks(d1.debouncer, now));
                } else {
                    let ki = i - out1.len();
                    assert(out[i] == added[ki]);
                    assert(out[i].1 == evs[ki]);
                    assert(ki < evs.len() - 1);
                    assert(!is_debounced_kind(evs[ki]));
                }
            }
        }
    }
}

/// Over any run with a clock that never goes backwards, two metadata, status or
/// position events are always at least the debounce window apart; only session
/// opening and closing are exempt from that spacing.
pub proof fn lemma_debounced_events_are_spaced(d: Detector, ticks: Seq<(Sample, Duration)>)
    requires
        monotone(ticks),
    ensures
        ({
            let out = run(d, ticks).1;
            forall|i: int, j: int|
                0 <= i < j < out.len() && is_debounced_kind((#[trigger] out[i]).1)
                    && is_debounced_kind((#[trigger] out[j]).1) ==> out[j].0.millis
                    >= out[i].0.millis + d.debouncer.duration.millis
        }),
{
    lemma_run_spacing(d, ticks);
}

} // verus!

verus! {

/// A session that appears with a title or an artist is reported as opened, then
/// with its metadata, in that order and in the same tick; inside the debounce
/// window of an earlier emission only the opening is reported. A snapshot without
/// a position leaves the detector settled on it.
pub proof fn lemma_opened_session_reports_metadata(
    d: Detector,
    app_name: String,
    info: MediaInfo,
    now: Duration,
)
    requires
        d.state is NoSession,
        info.title is Some || info.artist is Some,
    ensures
        ({
            let sample = Sample::Session { app_name, info };
            let (d1, evs) = tick_spec(d, sample, now);
            &&& !debounce_blocks(d.debouncer, now) ==> evs == seq![
                Ok::<MediaSessionEvent, MediaError>(
                    MediaSessionEvent::SessionOpened { app_name: app_name },
                ),
                Ok(MediaSessionEvent::MetadataChanged(info)),
            ]
            &&& debounce_blocks(d.debouncer, now) ==> evs == seq![
                Ok::<MediaSessionEvent, MediaError>(
                    MediaSessionEvent::SessionOpened { app_name: app_name },
                ),
            ]
            &&& info.position is None ==> stable(d1, sample)
        }),
{
    let sample = Sample::Session { app_name, info };
    let (d1, evs) = tick_spec(d, sample, now);
    assert(opt_view(blank().title) != opt_view(info.title) || opt_view(blank().artist)
        != opt_view(info.artist));
    if !debounce_blocks(d.debouncer, now) {
        assert(evs =~= seq![
            Ok::<MediaSessionEvent, MediaError>(
                MediaSessionEvent::SessionOpened { app_name: app_name },
            ),
            Ok(MediaSessionEvent::MetadataChanged(info)),
        ]);
    } else {
        assert(evs =~= seq![
            Ok::<MediaSessionEvent, MediaError>(
                MediaSessionEvent::SessionOpened { app_name: app_name },
            ),
        ]);
    }
}

/// A sequence of emission attempts on a debouncer at the given times: the
/// debouncer after the last one, and whether each attempt was let through.
pub open spec fn debounce_run(d: Debouncer, times: Seq<Duration>) -> (Debouncer, Seq<bool>)
    decreases times.len(),
{
    if times.len() == 0 {
        (d, Seq::empty())
    } else {
        let (d1, r1) = debounce_run(d, times.drop_last());
        let now = times.last();
        let ok = !debounce_blocks(d1, now);
        (
            if ok {
                Debouncer { last_emit: Some(now), ..d1 }
            } else {
                d1
            },
            r1.push(ok),
        )
    }
}

/// The invariant of a monotone sequence of attempts: the spacing is kept, the
/// debouncer remembers a time no earlier than any attempt let through, and any
/// two attempts let through are at least the spacing apart.
proof fn lemma_debounce_run_invariant(d: Debouncer, times: Seq<Duration>)
    requires
        forall|i: int, j: int| 0 <= i <= j < times.len() ==> times[i].millis <= times[j].millis,
    ensures
        ({
            let (dn, r) = debounce_run(d, times);
            &&& dn.duration == d.duration
            &&& r.len() == times.len()
            &&& forall|i: int|
                0 <= i < r.len() && #[trigger] r[i] ==> dn.last_emit is Some && times[i].millis
                    <= dn.last_emit->Some_0.millis
            &&& forall|i: int, j: int|
                0 <= i < j < r.len() && #[trigger] r[i] && #[trigger] r[j] ==> times[j].millis
                    >= times[i].millis + d.duration.millis
        }),
    decreases times.len(),
{
    if times.len() > 0 {
        let prefix = times.drop_last();
        lemma_debounce_run_invariant(d, prefix);
        let (d1, r1) = debounce_run(d, prefix);
        let now = times.last();
        let (dn, r) = debounce_run(d, times);
        assert forall|i: int| 0 <= i < r1.len() implies prefix[i] == times[i]
            && times[i].millis <= now.millis by {
            assert(prefix[i] == times[i]);
        }
        assert forall|i: int| 0 <= i < r.len() && #[trigger] r[i] implies dn.last_emit is Some
            && times[i].millis <= dn.last_emit->Some_0.millis by {
            if i < r1.len() {
                assert(r[i] == r1[i]);
                assert(prefix[i] == times[i]);
            }
        }
        assert forall|i: int, j: int|
            0 <= i < j < r.len() && #[trigger] r[i] && #[trigger] r[j] implies times[j].millis
                >= times[i].millis + d.duration.millis by {
            assert(r[i] == r1[i]);
            assert(prefix[i] == times[i]);
            if j < r1.len() {
                assert(r[j] == r1[j]);
                assert(prefix[j] == times[j]);
            } else {
                assert(j == times.len() - 1);
                assert(times[j] == now);
            }
        }
    }
}

/// Over any sequence of attempts at times that never go backwards, two attempts
/// that a debouncer lets through are at least its spacing apart, whatever was
/// attempted between them.
pub proof fn lemma_debouncer_emissions_are_spaced(d: Debouncer, times: Seq<Duration>)
    requires
        forall|i: int, j: int| 0 <= i <= j < times.len() ==> times[i].millis <= times[j].millis,
    ensures
        ({
            let r = debounce_run(d, times).1;
            forall|i: int, j: int|
                0 <= i < j < r.len() && #[trigger] r[i] && #[trigger] r[j] ==> times[j].millis
                    >= times[i].millis + d.duration.millis
        }),
{
    lemma_debounce_run_invariant(d, times);
}

} // verus!
