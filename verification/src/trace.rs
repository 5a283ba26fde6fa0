//! What the detector emits over a whole sequence of frames.

use crate::speech_detector::{
    event_of, exhausts, initial_view, step, DetectorView, SpeechDetectorEvent,
    SpeechDetectorState, SPEECH_FLUSH_THRESHOLD,
};
use vstd::prelude::*;

verus! {

/// One audio frame as the detector sees it.
pub struct Frame {
    pub bytes: Seq<u8>,
    pub duration: nat,
}

/// The detector after the first `k` of `frames`.
pub open spec fn run_to(v: DetectorView, frames: Seq<Frame>, k: int) -> DetectorView
    decreases k,
{
    if k <= 0 {
        v
    } else {
        step(run_to(v, frames, k - 1), frames[k - 1].bytes, frames[k - 1].duration)
    }
}

/// The event that frame `i` of `frames` raises.
pub open spec fn event_at(v: DetectorView, frames: Seq<Frame>, i: int) -> SpeechDetectorEvent {
    event_of(run_to(v, frames, i), frames[i].duration)
}

/// The events that `frames` raise, one per frame.
pub open spec fn events(v: DetectorView, frames: Seq<Frame>) -> Seq<SpeechDetectorEvent> {
    Seq::new(frames.len(), |i: int| event_at(v, frames, i))
}

/// The bytes in the first `k` of `frames`.
pub open spec fn bytes_to(frames: Seq<Frame>, k: int) -> nat
    decreases k,
{
    if k <= 0 {
        0
    } else {
        bytes_to(frames, k - 1) + frames[k - 1].bytes.len()
    }
}

/// The duration of the first `k` of `frames`.
pub open spec fn duration_to(frames: Seq<Frame>, k: int) -> nat
    decreases k,
{
    if k <= 0 {
        0
    } else {
        duration_to(frames, k - 1) + frames[k - 1].duration
    }
}

/// Whether `v` is a detector at the start of an utterance: silent, with
/// nothing buffered and nothing counted.
pub open spec fn at_start(v: DetectorView) -> bool {
    &&& v.state == SpeechDetectorState::Inactivity
    &&& v.speech.len() == 0
    &&& v.total_duration == 0
}

/// How many of the first `k` of `events` are `Activity`.
pub open spec fn activities(events: Seq<SpeechDetectorEvent>, k: int) -> nat
    decreases k,
{
    if k <= 0 {
        0
    } else if events[k - 1] is Activity {
        activities(events, k - 1) + 1
    } else {
        activities(events, k - 1)
    }
}

/// How many of the first `k` of `events` are `Inactivity`.
pub open spec fn inactivities(events: Seq<SpeechDetectorEvent>, k: int) -> nat
    decreases k,
{
    if k <= 0 {
        0
    } else if events[k - 1] is Inactivity {
        inactivities(events, k - 1) + 1
    } else {
        inactivities(events, k - 1)
    }
}

/// The bytes and the duration of a prefix never exceed those of a longer one.
proof fn totals_grow(frames: Seq<Frame>, i: int, k: int)
    requires
        0 <= i <= k,
    ensures
        bytes_to(frames, i) <= bytes_to(frames, k),
        duration_to(frames, i) <= duration_to(frames, k),
    decreases k - i,
{
    if i < k {
        totals_grow(frames, i, k - 1);
    }
}

/// Below both limits a fresh detector goes through onset once and then stays
/// in speech.
proof fn stays_in_speech(v: DetectorView, frames: Seq<Frame>, k: int)
    requires
        at_start(v),
        0 <= k <= frames.len(),
        bytes_to(frames, frames.len() as int) <= SPEECH_FLUSH_THRESHOLD,
        duration_to(frames, frames.len() as int) < v.duration_timeout,
    ensures
        run_to(v, frames, k).duration_timeout == v.duration_timeout,
        run_to(v, frames, k).total_duration == duration_to(frames, k),
        run_to(v, frames, k).speech.len() <= bytes_to(frames, k),
        run_to(v, frames, k).state == if k == 0 {
            SpeechDetectorState::Inactivity
        } else if k == 1 {
            SpeechDetectorState::ActivityTransition
        } else {
            SpeechDetectorState::Activity
        },
    decreases k,
{
    if k > 0 {
        stays_in_speech(v, frames, k - 1);
        totals_grow(frames, k, frames.len() as int);
    }
}

/// A sequence of events with `Activity` in its second place and nothing
/// elsewhere holds one `Activity` and no `Inactivity`.
proof fn counts_of_one_onset(events: Seq<SpeechDetectorEvent>, k: int)
    requires
        0 <= k <= events.len(),
        forall|i: int|
            0 <= i < events.len() ==> events[i] == if i == 1 {
                SpeechDetectorEvent::Activity
            } else {
                SpeechDetectorEvent::NoEvent
            },
    ensures
        activities(events, k) == if k >= 2 {
            1nat
        } else {
            0nat
        },
        inactivities(events, k) == 0,
    decreases k,
{
    if k > 0 {
        counts_of_one_onset(events, k - 1);
    }
}

/// An utterance that stays within the flush threshold and within the duration
/// budget raises `Activity` exactly once, on its second frame, and nothing
/// else: no `Inactivity`, since the span of speech is never closed, and no
/// `DurationTimeout`.
pub proof fn short_utterance_raises_one_activity(v: DetectorView, frames: Seq<Frame>)
    requires
        at_start(v),
        frames.len() >= 2,
        bytes_to(frames, frames.len() as int) <= SPEECH_FLUSH_THRESHOLD,
        duration_to(frames, frames.len() as int) < v.duration_timeout,
    ensures
        ({
            let raised = events(v, frames);
            &&& raised.len() == frames.len()
            &&& raised[1] == SpeechDetectorEvent::Activity
            &&& forall|i: int|
                0 <= i < raised.len() && i != 1 ==> raised[i] == SpeechDetectorEvent::NoEvent
            &&& activities(raised, raised.len() as int) == 1
            &&& inactivities(raised, raised.len() as int) <= 1
            &&& forall|i: int|
                0 <= i < raised.len() ==> raised[i] != SpeechDetectorEvent::DurationTimeout
        }),
{
    let raised = events(v, frames);
    assert forall|i: int| 0 <= i < raised.len() implies raised[i] == if i == 1 {
        SpeechDetectorEvent::Activity
    } else {
        SpeechDetectorEvent::NoEvent
    } by {
        stays_in_speech(v, frames, i);
        totals_grow(frames, i + 1, frames.len() as int);
    }
    counts_of_one_onset(raised, raised.len() as int);
}

/// Every detector that `Detector8kHz::new` describes is at the start of an
/// utterance, whatever its budgets.
pub proof fn initial_view_is_at_start(
    timers_started: bool,
    speech_timeout: nat,
    silence_timeout: nat,
    noinput_timeout: nat,
    duration_timeout: nat,
)
    ensures
        at_start(
            initial_view(
                timers_started,
                speech_timeout,
                silence_timeout,
                noinput_timeout,
                duration_timeout,
            ),
        ),
{
}

/// Once the detector is exhausted it stays as it is, and every later frame
/// raises `Noinput`: never again `Activity` or `Inactivity`.
pub proof fn exhausted_is_terminal(v: DetectorView, frames: Seq<Frame>, k: int, j: int)
    requires
        0 <= k <= j < frames.len(),
        run_to(v, frames, k).state == SpeechDetectorState::Exhausted,
    ensures
        run_to(v, frames, j + 1) == run_to(v, frames, k),
        event_at(v, frames, j) == SpeechDetectorEvent::Noinput,
    decreases j - k,
{
    if k < j {
        exhausted_is_terminal(v, frames, k, j - 1);
    }
}

/// A frame only adds to what was counted and to the buffered speech. It never
/// spends the no-input budget, and it leaves the configuration alone.
pub proof fn frame_only_counts_up(v: DetectorView, frame: Seq<u8>, duration: nat)
    ensures
        step(v, frame, duration).total_duration >= v.total_duration,
        v.speech.is_prefix_of(step(v, frame, duration).speech),
        step(v, frame, duration).noinput_timeout == v.noinput_timeout,
        step(v, frame, duration).duration_timeout == v.duration_timeout,
        step(v, frame, duration).timers_started == v.timers_started,
        step(v, frame, duration).input_started == v.input_started,
        step(v, frame, duration).in_sensitivity == v.in_sensitivity,
        step(v, frame, duration).out_sensitivity == v.out_sensitivity,
{
}

/// A frame under which the counted duration reaches the budget raises
/// `DurationTimeout`, whatever the state would have raised, and exhausts the
/// detector.
pub proof fn budget_overrides_transition(v: DetectorView, frame: Seq<u8>, duration: nat)
    requires
        v.state != SpeechDetectorState::Exhausted,
        exhausts(v, duration),
    ensures
        event_of(v, duration) == SpeechDetectorEvent::DurationTimeout,
        step(v, frame, duration).state == SpeechDetectorState::Exhausted,
{
}

} // verus!
