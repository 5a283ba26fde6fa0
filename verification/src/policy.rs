//! What each detector event asks of the channel that owns the buffer.

use crate::recognizer::{
    handed_off, input_started_of, restarted, written, BufferView, Handoff, RecogBuffer,
};
use crate::speech_detector::{event_of, DetectorView, SpeechDetectorEvent, SpeechDetectorState};
use vstd::prelude::*;

verus! {

/// Why a recognition is complete.
#[derive(Debug, PartialEq, Eq, Clone, Copy, Structural)]
pub enum CompletionCause {
    /// A text was recognized.
    Success,
    /// The utterance ran out without input.
    NoInputTimeout,
}

/// What the channel has to do after an event.
pub enum Reaction {
    /// Nothing.
    Idle,
    /// Announce that speech has begun.
    StartOfInput,
    /// Start a recognition task on the speech that was handed off.
    Recognize(Handoff),
    /// Announce that the recognition is complete; the utterance is over.
    Complete { cause: CompletionCause, text: String },
}

/// A reaction as a mathematical value.
pub enum ReactionView {
    Idle,
    StartOfInput,
    Recognize(Seq<u8>),
    Complete { cause: CompletionCause, text: Seq<char> },
}

impl View for Reaction {
    type V = ReactionView;

    open spec fn view(&self) -> ReactionView {
        match *self {
            Reaction::Idle => ReactionView::Idle,
            Reaction::StartOfInput => ReactionView::StartOfInput,
            Reaction::Recognize(handoff) => ReactionView::Recognize(handoff.data@),
            Reaction::Complete { cause, text } => ReactionView::Complete { cause, text: text@ },
        }
    }
}

/// What a loaded result asks for while a recognition is outstanding: nothing
/// while no result is there; a restart, with the utterance going on, when the
/// result is the empty text; else completion with the text.
pub open spec fn settled(b: BufferView, loaded: Option<Seq<char>>) -> (BufferView, ReactionView) {
    match loaded {
        None => (b, ReactionView::Idle),
        Some(text) => if text.len() == 0 {
            (restarted(b), ReactionView::Idle)
        } else {
            (b, ReactionView::Complete { cause: CompletionCause::Success, text })
        },
    }
}

/// What `event` asks for, and the buffer afterwards. `loaded` is what the
/// result slot yields, which only `Recognizing` looks at.
pub open spec fn interpreted(
    b: BufferView,
    event: SpeechDetectorEvent,
    loaded: Option<Seq<char>>,
) -> (BufferView, ReactionView) {
    match event {
        SpeechDetectorEvent::NoEvent => (b, ReactionView::Idle),
        SpeechDetectorEvent::Activity => if input_started_of(b.detector) {
            (b, ReactionView::Idle)
        } else {
            (
                BufferView { detector: DetectorView { input_started: true, ..b.detector }, ..b },
                ReactionView::StartOfInput,
            )
        },
        SpeechDetectorEvent::Inactivity { duration } => (
            handed_off(b, duration as nat),
            ReactionView::Recognize(b.detector.speech),
        ),
        SpeechDetectorEvent::DurationTimeout => (
            handed_off(b, b.detector.duration_timeout),
            ReactionView::Recognize(b.detector.speech),
        ),
        SpeechDetectorEvent::Noinput => (
            b,
            ReactionView::Complete { cause: CompletionCause::NoInputTimeout, text: Seq::empty() },
        ),
        SpeechDetectorEvent::Recognizing => settled(b, loaded),
    }
}

/// The view of a loaded result.
pub open spec fn loaded_view(loaded: Option<String>) -> Option<Seq<char>> {
    match loaded {
        Some(text) => Some(text@),
        None => None,
    }
}

/// Acts on what the result slot yielded while a recognition is outstanding.
pub fn settle(buffer: &mut RecogBuffer, loaded: Option<String>) -> (reaction: Reaction)
    ensures
        (final(buffer)@, reaction@) == settled(old(buffer)@, loaded_view(loaded)),
{
    match loaded {
        None => Reaction::Idle,
        Some(text) => {
            if text.as_str().is_empty() {
                buffer.restart_writing();
                Reaction::Idle
            } else {
                Reaction::Complete { cause: CompletionCause::Success, text }
            }
        },
    }
}

/// Acts on `event`. Every event but `Recognizing` decides by itself what
/// happens; for `Recognizing` the result slot is looked into, and what
/// happens is what `settle` does with what was found there.
pub fn interpret(buffer: &mut RecogBuffer, event: SpeechDetectorEvent) -> (reaction: Reaction)
    ensures
        event != SpeechDetectorEvent::Recognizing ==> (final(buffer)@, reaction@) == interpreted(
            old(buffer)@,
            event,
            None,
        ),
        event == SpeechDetectorEvent::Recognizing ==> exists|loaded: Option<Seq<char>>|
            (final(buffer)@, reaction@) == #[trigger] settled(old(buffer)@, loaded),
{
    match event {
        SpeechDetectorEvent::NoEvent => Reaction::Idle,
        SpeechDetectorEvent::Activity => {
            if !buffer.input_started() {
                buffer.start_input();
                Reaction::StartOfInput
            } else {
                Reaction::Idle
            }
        },
        SpeechDetectorEvent::Inactivity { duration } => {
            let handoff = buffer.recognize(duration);
            Reaction::Recognize(handoff)
        },
        SpeechDetectorEvent::DurationTimeout => {
            let budget = buffer.duration_timeout();
            let handoff = buffer.recognize(budget);
            Reaction::Recognize(handoff)
        },
        SpeechDetectorEvent::Noinput => Reaction::Complete {
            cause: CompletionCause::NoInputTimeout,
            text: String::new(),
        },
        SpeechDetectorEvent::Recognizing => {
            let loaded = buffer.load_result();
            let ghost found = loaded_view(loaded);
            let reaction = settle(buffer, loaded);
            assert((buffer@, reaction@) == settled(old(buffer)@, found));
            reaction
        },
    }
}

/// Takes one frame: writes it to the buffer and acts on the event that the
/// buffer remembers afterwards.
pub fn on_frame(buffer: &mut RecogBuffer, frame: &[u8], frame_duration: usize) -> (reaction:
    Reaction)
    requires
        old(buffer)@.detector.state != SpeechDetectorState::Exhausted ==> old(
            buffer,
        )@.detector.total_duration + frame_duration <= usize::MAX,
    ensures
        ({
            let after = written(old(buffer)@, frame@, frame_duration as nat);
            &&& after.event != SpeechDetectorEvent::Recognizing ==> (final(buffer)@, reaction@)
                == interpreted(after, after.event, None)
            &&& after.event == SpeechDetectorEvent::Recognizing ==> exists|
                loaded: Option<Seq<char>>,
            |
                (final(buffer)@, reaction@) == #[trigger] settled(after, loaded)
        }),
{
    buffer.write(frame, frame_duration);
    let event = buffer.detector_event();
    interpret(buffer, event)
}

/// A restart truly forgets: whatever was remembered, an outstanding
/// recognition too, the buffer then remembers what the next frame raises.
pub proof fn restart_forgets(b: BufferView, frame: Seq<u8>, duration: nat)
    ensures
        restarted(b).event == SpeechDetectorEvent::NoEvent,
        restarted(b).detector == b.detector,
        written(restarted(b), frame, duration).event == event_of(b.detector, duration),
{
}

/// Where input has not started, an `Activity` raised by the first frame after
/// a restart is announced as the start of input, and input counts as started
/// from then on.
pub proof fn activity_after_restart_is_announced(b: BufferView, frame: Seq<u8>, duration: nat)
    requires
        event_of(b.detector, duration) == SpeechDetectorEvent::Activity,
        !input_started_of(b.detector),
    ensures
        ({
            let after = written(restarted(b), frame, duration);
            let (then, reaction) = interpreted(after, after.event, None);
            &&& after.event == SpeechDetectorEvent::Activity
            &&& reaction == ReactionView::StartOfInput
            &&& input_started_of(then.detector)
        }),
{
}

/// While a recognition is outstanding no frame changes what is remembered.
pub proof fn recognizing_is_sticky(b: BufferView, frame: Seq<u8>, duration: nat)
    requires
        b.event == SpeechDetectorEvent::Recognizing,
    ensures
        written(b, frame, duration).event == SpeechDetectorEvent::Recognizing,
{
}

} // verus!
