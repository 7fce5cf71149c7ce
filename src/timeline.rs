use vstd::prelude::*;

verus! {

/// Native durations count ticks of 100 ns.
pub const TICKS_PER_MS: i64 = 10000;

/// The largest magnitude, in milliseconds, whose tick count fits in an `i64`.
pub const MAX_MS: i64 = 922337203685477;

/// Playback timeline in milliseconds.
#[derive(Clone, Copy, Debug, PartialEq, Eq, Structural)]
pub struct PlaybackTimeline {
    pub start_time_ms: i64,
    pub end_time_ms: i64,
    pub position_ms: i64,
    pub min_seek_time_ms: i64,
    pub max_seek_time_ms: i64,
}

/// Timeline as the native surface takes it, in ticks of 100 ns.
#[derive(Clone, Copy, Debug, PartialEq, Eq, Structural)]
pub struct NativeTimeline {
    pub start_time: i64,
    pub end_time: i64,
    pub position: i64,
    pub min_seek_time: i64,
    pub max_seek_time: i64,
}

/// Why a timeline cannot be handed to the native surface.
#[derive(Clone, Copy, Debug, PartialEq, Eq, Structural)]
pub enum TimelineError {
    /// The position lies outside the seekable range.
    SeekOrder,
    /// A value has no tick count that fits in an `i64`.
    OutOfRange,
}

/// The position lies within the seekable range.
pub open spec fn seek_order_holds(t: PlaybackTimeline) -> bool {
    t.min_seek_time_ms <= t.position_ms <= t.max_seek_time_ms
}

/// The tick count of `ms` milliseconds fits in an `i64`.
pub open spec fn ms_representable(ms: i64) -> bool {
    i64::MIN <= ms * 10000 <= i64::MAX
}

/// Every value of the timeline has a tick count that fits in an `i64`.
pub open spec fn timeline_representable(t: PlaybackTimeline) -> bool {
    &&& ms_representable(t.start_time_ms)
    &&& ms_representable(t.end_time_ms)
    &&& ms_representable(t.position_ms)
    &&& ms_representable(t.min_seek_time_ms)
    &&& ms_representable(t.max_seek_time_ms)
}

/// The native form of a representable timeline.
pub open spec fn native_of(t: PlaybackTimeline) -> NativeTimeline {
    NativeTimeline {
        start_time: (t.start_time_ms * 10000) as i64,
        end_time: (t.end_time_ms * 10000) as i64,
        position: (t.position_ms * 10000) as i64,
        min_seek_time: (t.min_seek_time_ms * 10000) as i64,
        max_seek_time: (t.max_seek_time_ms * 10000) as i64,
    }
}

/// Whole milliseconds in a tick count, rounded toward zero.
pub open spec fn ms_of_ticks(ticks: i64) -> i64 {
    if ticks >= 0 {
        (ticks / 10000) as i64
    } else {
        -((-ticks) / 10000) as i64
    }
}

/// The timeline that a native timeline describes.
pub open spec fn timeline_of(n: NativeTimeline) -> PlaybackTimeline {
    PlaybackTimeline {
        start_time_ms: ms_of_ticks(n.start_time),
        end_time_ms: ms_of_ticks(n.end_time),
        position_ms: ms_of_ticks(n.position),
        min_seek_time_ms: ms_of_ticks(n.min_seek_time),
        max_seek_time_ms: ms_of_ticks(n.max_seek_time),
    }
}

/// The tick count of `ms` milliseconds, if it fits in an `i64`.
pub fn ms_to_ticks(ms: i64) -> (r: Option<i64>)
    ensures
        ms_representable(ms) ==> r == Some((ms * 10000) as i64),
        !ms_representable(ms) ==> r is None,
{
    if -MAX_MS <= ms && ms <= MAX_MS {
        assert(i64::MIN <= ms * 10000 <= i64::MAX) by (nonlinear_arith)
            requires
                -922337203685477 <= ms <= 922337203685477,
        ;
        Some(ms * TICKS_PER_MS)
    } else {
        assert(!(i64::MIN <= ms * 10000 <= i64::MAX)) by (nonlinear_arith)
            requires
                ms < -922337203685477 || ms > 922337203685477,
        ;
        None
    }
}

/// Whole milliseconds in a tick count, rounded toward zero.
pub fn ticks_to_ms(ticks: i64) -> (r: i64)
    ensures
        r == ms_of_ticks(ticks),
{
    if ticks >= 0 {
        ticks / TICKS_PER_MS
    } else if ticks == i64::MIN {
        -922337203685477
    } else {
        let m: i64 = -ticks;
        -(m / TICKS_PER_MS)
    }
}

/// Converts a timeline to its native form. Fails with `SeekOrder` when the position
/// lies outside the seekable range, else with `OutOfRange` when a value has no tick
/// count that fits in an `i64`.
pub fn to_native_timeline(t: &PlaybackTimeline) -> (r: Result<NativeTimeline, TimelineError>)
    ensures
        !seek_order_holds(*t) ==> r == Err::<NativeTimeline, TimelineError>(
            TimelineError::SeekOrder,
        ),
        seek_order_holds(*t) && !timeline_representable(*t) ==> r == Err::<
            NativeTimeline,
            TimelineError,
        >(TimelineError::OutOfRange),
        seek_order_holds(*t) && timeline_representable(*t) ==> r == Ok::<
            NativeTimeline,
            TimelineError,
        >(native_of(*t)),
{
    if !(t.min_seek_time_ms <= t.position_ms && t.position_ms <= t.max_seek_time_ms) {
        return Err(TimelineError::SeekOrder);
    }
    let start_time = match ms_to_ticks(t.start_time_ms) {
        Some(v) => v,
        None => return Err(TimelineError::OutOfRange),
    };
    let end_time = match ms_to_ticks(t.end_time_ms) {
        Some(v) => v,
        None => return Err(TimelineError::OutOfRange),
    };
    let position = match ms_to_ticks(t.position_ms) {
        Some(v) => v,
        None => return Err(TimelineError::OutOfRange),
    };
    let min_seek_time = match ms_to_ticks(t.min_seek_time_ms) {
        Some(v) => v,
        None => return Err(TimelineError::OutOfRange),
    };
    let max_seek_time = match ms_to_ticks(t.max_seek_time_ms) {
        Some(v) => v,
        None => return Err(TimelineError::OutOfRange),
    };
    Ok(NativeTimeline { start_time, end_time, position, min_seek_time, max_seek_time })
}

/// Converts a native timeline back to milliseconds.
pub fn from_native_timeline(n: &NativeTimeline) -> (r: PlaybackTimeline)
    ensures
        r == timeline_of(*n),
{
    PlaybackTimeline {
        start_time_ms: ticks_to_ms(n.start_time),
        end_time_ms: ticks_to_ms(n.end_time),
        position_ms: ticks_to_ms(n.position),
        min_seek_time_ms: ticks_to_ms(n.min_seek_time),
        max_seek_time_ms: ticks_to_ms(n.max_seek_time),
    }
}

proof fn lemma_ms_round_trip(ms: i64)
    requires
        ms_representable(ms),
    ensures
        ms_of_ticks((ms * 10000) as i64) == ms,
{
    if ms >= 0 {
        assert((ms * 10000) / 10000 == ms) by (nonlinear_arith);
    } else {
        assert((-(ms * 10000)) / 10000 == -ms) by (nonlinear_arith)
            requires
                ms < 0,
        ;
    }
}

/// A timeline whose position lies within the seekable range and whose values fit
/// converts to native form (see `to_native_timeline`), and converting back gives
/// every value again.
pub proof fn lemma_timeline_round_trip(t: PlaybackTimeline)
    ensures
        seek_order_holds(t) && timeline_representable(t) ==> timeline_of(native_of(t)) == t,
{
    if seek_order_holds(t) && timeline_representable(t) {
        lemma_ms_round_trip(t.start_time_ms);
        lemma_ms_round_trip(t.end_time_ms);
        lemma_ms_round_trip(t.position_ms);
        lemma_ms_round_trip(t.min_seek_time_ms);
        lemma_ms_round_trip(t.max_seek_time_ms);
    }
}

} // verus!
