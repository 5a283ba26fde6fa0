//! The endpointing state machine: one call per audio frame, at most one event
//! per call.

use vstd::prelude::*;

verus! {

/// Ceiling of the "out" sensitivity threshold.
pub const MAX_SENSITIVITY: usize = 1200;

/// Number of buffered speech bytes above which a span of speech is closed.
pub const SPEECH_FLUSH_THRESHOLD: usize = 16000;

/// Largest sensitivity, in percent; larger requests are clamped to it.
pub const FULL_SENSITIVITY: usize = 100;

/// What the detector reports for one frame, and what the orchestrator remembers.
#[derive(Debug, PartialEq, Eq, Clone, Copy, Structural)]
pub enum SpeechDetectorEvent {
    /// Nothing happened.
    NoEvent,
    /// Speech has begun.
    Activity,
    /// A span of speech of `duration` was closed.
    Inactivity { duration: usize },
    /// The utterance is exhausted.
    Noinput,
    /// The duration budget of the utterance ran out with this frame.
    DurationTimeout,
    /// Speech was handed off and its text is awaited. The detector never
    /// raises this; the orchestrator remembers it.
    Recognizing,
}

/// Where the detector stands between two frames.
#[derive(Debug, PartialEq, Eq, Clone, Copy, Structural)]
pub enum SpeechDetectorState {
    /// No speech.
    Inactivity,
    /// Speech is about to begin.
    ActivityTransition,
    /// Speech is going on and is buffered.
    Activity,
    /// The buffered speech went over the threshold; the next frame closes it.
    InactivityTransition,
    /// The duration budget is used up. Nothing leads out of this state.
    Exhausted,
}

/// The detector as a mathematical value.
pub struct DetectorView {
    pub state: SpeechDetectorState,
    pub speech: Seq<u8>,
    pub speech_timeout: nat,
    pub silence_timeout: nat,
    pub timers_started: bool,
    pub input_started: bool,
    pub noinput_timeout: nat,
    pub duration_timeout: nat,
    pub inactivity_duration: nat,
    pub activity_duration: nat,
    pub total_duration: nat,
    pub in_sensitivity: nat,
    pub out_sensitivity: nat,
}

/// The detector that `Detector8kHz::new` builds.
pub open spec fn initial_view(
    timers_started: bool,
    speech_timeout: nat,
    silence_timeout: nat,
    noinput_timeout: nat,
    duration_timeout: nat,
) -> DetectorView {
    DetectorView {
        state: SpeechDetectorState::Inactivity,
        speech: Seq::empty(),
        speech_timeout,
        silence_timeout,
        timers_started,
        input_started: false,
        noinput_timeout,
        duration_timeout,
        inactivity_duration: 0,
        activity_duration: 0,
        total_duration: 0,
        in_sensitivity: 32,
        out_sensitivity: 512,
    }
}

/// Whether a frame of `duration` uses up what is left of the duration budget.
pub open spec fn exhausts(v: DetectorView, duration: nat) -> bool {
    v.total_duration + duration >= v.duration_timeout
}

/// The event that a frame of `duration` raises in `v`.
pub open spec fn event_of(v: DetectorView, duration: nat) -> SpeechDetectorEvent {
    if v.state == SpeechDetectorState::Exhausted {
        SpeechDetectorEvent::Noinput
    } else if exhausts(v, duration) {
        SpeechDetectorEvent::DurationTimeout
    } else {
        match v.state {
            SpeechDetectorState::ActivityTransition => SpeechDetectorEvent::Activity,
            SpeechDetectorState::InactivityTransition => SpeechDetectorEvent::Inactivity {
                duration: v.activity_duration as usize,
            },
            _ => SpeechDetectorEvent::NoEvent,
        }
    }
}

/// The speech buffer after `frame`: frames are kept while speech is active and
/// on the frame that closes the span.
pub open spec fn speech_after(v: DetectorView, frame: Seq<u8>) -> Seq<u8> {
    match v.state {
        SpeechDetectorState::Activity | SpeechDetectorState::InactivityTransition => v.speech
            + frame,
        _ => v.speech,
    }
}

/// The duration of the current span of speech after a frame of `duration`.
pub open spec fn activity_after(v: DetectorView, duration: nat) -> nat {
    match v.state {
        SpeechDetectorState::ActivityTransition => duration,
        SpeechDetectorState::Activity => v.activity_duration + duration,
        _ => v.activity_duration,
    }
}

/// The state after `frame`, as long as the duration budget lasts.
pub open spec fn state_after(v: DetectorView, frame: Seq<u8>) -> SpeechDetectorState {
    match v.state {
        SpeechDetectorState::Inactivity => SpeechDetectorState::ActivityTransition,
        SpeechDetectorState::ActivityTransition => SpeechDetectorState::Activity,
        SpeechDetectorState::Activity => if v.speech.len() + frame.len()
            > SPEECH_FLUSH_THRESHOLD {
            SpeechDetectorState::InactivityTransition
        } else {
            SpeechDetectorState::Activity
        },
        SpeechDetectorState::InactivityTransition => SpeechDetectorState::Inactivity,
        SpeechDetectorState::Exhausted => SpeechDetectorState::Exhausted,
    }
}

/// The detector after one frame.
pub open spec fn step(v: DetectorView, frame: Seq<u8>, duration: nat) -> DetectorView {
    if v.state == SpeechDetectorState::Exhausted {
        v
    } else {
        DetectorView {
            state: if exhausts(v, duration) {
                SpeechDetectorState::Exhausted
            } else {
                state_after(v, frame)
            },
            speech: speech_after(v, frame),
            activity_duration: activity_after(v, duration),
            total_duration: v.total_duration + duration,
            ..v
        }
    }
}

/// The "in" sensitivity for a request of `percent`: requests above the full
/// sensitivity count as the full sensitivity.
pub open spec fn in_sensitivity_of(percent: nat) -> nat {
    if percent > FULL_SENSITIVITY {
        FULL_SENSITIVITY as nat
    } else {
        percent
    }
}

/// The "out" sensitivity that belongs to an "in" sensitivity: sixteen times
/// as much, up to the ceiling.
pub open spec fn out_sensitivity_of(in_sensitivity: nat) -> nat {
    if in_sensitivity * 16 > MAX_SENSITIVITY {
        MAX_SENSITIVITY as nat
    } else {
        in_sensitivity * 16
    }
}

/// Endpointing state machine for one utterance.
#[derive(Debug)]
pub struct Detector8kHz {
    speech: Vec<u8>,
    speech_timeout: usize,
    silence_timeout: usize,
    timers_started: bool,
    input_started: bool,
    noinput_timeout: usize,
    duration_timeout: usize,
    inactivity_duration: usize,
    activity_duration: usize,
    total_duration: usize,
    in_sensitivity: usize,
    out_sensitivity: usize,
    state: SpeechDetectorState,
}

impl View for Detector8kHz {
    type V = DetectorView;

    closed spec fn view(&self) -> DetectorView {
        DetectorView {
            state: self.state,
            speech: self.speech@,
            speech_timeout: self.speech_timeout as nat,
            silence_timeout: self.silence_timeout as nat,
            timers_started: self.timers_started,
            input_started: self.input_started,
            noinput_timeout: self.noinput_timeout as nat,
            duration_timeout: self.duration_timeout as nat,
            inactivity_duration: self.inactivity_duration as nat,
            activity_duration: self.activity_duration as nat,
            total_duration: self.total_duration as nat,
            in_sensitivity: self.in_sensitivity as nat,
            out_sensitivity: self.out_sensitivity as nat,
        }
    }
}

impl Detector8kHz {
    /// The span of speech never lasts longer than the utterance.
    #[verifier::type_invariant]
    closed spec fn span_within_total(&self) -> bool {
        self.activity_duration <= self.total_duration
    }

    /// A detector at the start of an utterance: silent, nothing buffered,
    /// nothing counted, default sensitivity.
    pub fn new(
        timers_started: bool,
        speech_timeout: usize,
        silence_timeout: usize,
        noinput_timeout: usize,
        duration_timeout: usize,
    ) -> (detector: Self)
        ensures
            detector@ == initial_view(
                timers_started,
                speech_timeout as nat,
                silence_timeout as nat,
                noinput_timeout as nat,
                duration_timeout as nat,
            ),
    {
        Self {
            speech: Vec::new(),
            speech_timeout,
            silence_timeout,
            timers_started,
            input_started: false,
            noinput_timeout,
            duration_timeout,
            inactivity_duration: 0,
            activity_duration: 0,
            total_duration: 0,
            in_sensitivity: 32,
            out_sensitivity: 512,
            state: SpeechDetectorState::Inactivity,
        }
    }

    /// Sets both sensitivity thresholds from a sensitivity in percent.
    pub fn set_mode(&mut self, percent: usize)
        ensures
            final(self)@ == (DetectorView {
                in_sensitivity: in_sensitivity_of(percent as nat),
                out_sensitivity: out_sensitivity_of(in_sensitivity_of(percent as nat)),
                ..old(self)@
            }),
    {
        proof {
            use_type_invariant(&*self);
        }
        let sensitivity: usize = if percent > FULL_SENSITIVITY {
            FULL_SENSITIVITY
        } else {
            percent
        };
        assert(sensitivity << 4 == sensitivity * 16) by (bit_vector)
            requires
                sensitivity <= 100,
        ;
        let out_sensitivity: usize = sensitivity << 4;
        self.in_sensitivity = sensitivity;
        self.out_sensitivity = if out_sensitivity > MAX_SENSITIVITY {
            MAX_SENSITIVITY
        } else {
            out_sensitivity
        };
    }

    /// Takes one frame of `duration` and reports what it raised.
    ///
    /// An exhausted detector reports `Noinput` and stays as it is. Otherwise
    /// the frame is counted, and kept while speech is active; once the counted
    /// duration reaches the budget the detector is exhausted and reports
    /// `DurationTimeout` in place of whatever the frame would have raised.
    pub fn process(&mut self, frame: &[u8], duration: usize) -> (event: SpeechDetectorEvent)
        requires
            old(self)@.state != SpeechDetectorState::Exhausted ==> old(self)@.total_duration
                + duration <= usize::MAX,
        ensures
            event == event_of(old(self)@, duration as nat),
            final(self)@ == step(old(self)@, frame@, duration as nat),
    {
        proof {
            use_type_invariant(&*self);
        }
        let mut result = SpeechDetectorEvent::NoEvent;
        match self.state {
            SpeechDetectorState::Exhausted => {
                return SpeechDetectorEvent::Noinput;
            },
            _ => {},
        }
        self.total_duration = self.total_duration + duration;
        match self.state {
            SpeechDetectorState::Inactivity => {
                self.change_state(SpeechDetectorState::ActivityTransition);
            },
            SpeechDetectorState::ActivityTransition => {
                self.activity_duration = duration;
                self.change_state(SpeechDetectorState::Activity);
                result = SpeechDetectorEvent::Activity;
            },
            SpeechDetectorState::Activity => {
                self.activity_duration = self.activity_duration + duration;
                self.keep(frame);
                if self.speech.len() > SPEECH_FLUSH_THRESHOLD {
                    self.change_state(SpeechDetectorState::InactivityTransition);
                }
            },
            SpeechDetectorState::InactivityTransition => {
                self.keep(frame);
                self.change_state(SpeechDetectorState::Inactivity);
                result = SpeechDetectorEvent::Inactivity { duration: self.activity_duration };
            },
            SpeechDetectorState::Exhausted => {},
        }
        if self.total_duration >= self.duration_timeout {
            result = SpeechDetectorEvent::DurationTimeout;
            self.change_state(SpeechDetectorState::Exhausted);
        }
        result
    }

    /// Starts the no-input timing.
    pub fn start_input_timers(&mut self)
        ensures
            final(self)@ == (DetectorView { timers_started: true, ..old(self)@ }),
    {
        proof {
            use_type_invariant(&*self);
        }
        self.timers_started = true;
    }

    /// Records that speech has begun.
    pub fn start_input(&mut self)
        ensures
            final(self)@ == (DetectorView { input_started: true, ..old(self)@ }),
    {
        proof {
            use_type_invariant(&*self);
        }
        self.input_started = true;
    }

    /// Replaces what is left of the no-input budget.
    pub(crate) fn set_noinput_timeout(&mut self, remaining: usize)
        ensures
            final(self)@ == (DetectorView { noinput_timeout: remaining as nat, ..old(self)@ }),
    {
        proof {
            use_type_invariant(&*self);
        }
        self.noinput_timeout = remaining;
    }

    /// Hands out the buffered speech and leaves an empty buffer behind.
    pub fn take_speech(&mut self) -> (speech: Vec<u8>)
        ensures
            speech@ == old(self)@.speech,
            final(self)@ == (DetectorView { speech: Seq::empty(), ..old(self)@ }),
    {
        proof {
            use_type_invariant(&*self);
        }
        let mut speech: Vec<u8> = Vec::new();
        core::mem::swap(&mut self.speech, &mut speech);
        speech
    }

    /// Where the detector stands.
    pub fn state(&self) -> (state: SpeechDetectorState)
        ensures
            state == self@.state,
    {
        self.state
    }

    /// The speech buffered so far.
    pub fn speech(&self) -> (speech: &[u8])
        ensures
            speech@ == self@.speech,
    {
        self.speech.as_slice()
    }

    /// The speech-onset threshold the detector was made with.
    pub fn speech_timeout(&self) -> (timeout: usize)
        ensures
            timeout == self@.speech_timeout,
    {
        self.speech_timeout
    }

    /// The silence threshold the detector was made with.
    pub fn silence_timeout(&self) -> (timeout: usize)
        ensures
            timeout == self@.silence_timeout,
    {
        self.silence_timeout
    }

    /// Whether the no-input timing was started.
    pub fn timers_started(&self) -> (started: bool)
        ensures
            started == self@.timers_started,
    {
        self.timers_started
    }

    /// Whether speech was recorded as begun.
    pub fn input_started(&self) -> (started: bool)
        ensures
            started == self@.input_started,
    {
        self.input_started
    }

    /// What is left of the no-input budget.
    pub fn noinput_timeout(&self) -> (remaining: usize)
        ensures
            remaining == self@.noinput_timeout,
    {
        self.noinput_timeout
    }

    /// The duration budget of the utterance.
    pub fn duration_timeout(&self) -> (budget: usize)
        ensures
            budget == self@.duration_timeout,
    {
        self.duration_timeout
    }

    /// The duration of the current span of speech.
    pub fn activity_duration(&self) -> (duration: usize)
        ensures
            duration == self@.activity_duration,
    {
        self.activity_duration
    }

    /// The duration counted over the whole utterance.
    pub fn total_duration(&self) -> (duration: usize)
        ensures
            duration == self@.total_duration,
    {
        self.total_duration
    }

    /// The "in" sensitivity threshold.
    pub fn in_sensitivity(&self) -> (threshold: usize)
        ensures
            threshold == self@.in_sensitivity,
    {
        self.in_sensitivity
    }

    /// The "out" sensitivity threshold.
    pub fn out_sensitivity(&self) -> (threshold: usize)
        ensures
            threshold == self@.out_sensitivity,
    {
        self.out_sensitivity
    }

    /// Appends `frame` to the buffered speech.
    fn keep(&mut self, frame: &[u8])
        ensures
            final(self)@ == (DetectorView { speech: old(self)@.speech + frame@, ..old(self)@ }),
    {
        proof {
            use_type_invariant(&*self);
        }
        let mut speech: Vec<u8> = Vec::new();
        core::mem::swap(&mut self.speech, &mut speech);
        speech.extend_from_slice(frame);
        assert(speech@ =~= old(self)@.speech + frame@);
        self.speech = speech;
    }

    /// Moves the detector to `state` and leaves everything else as it is.
    fn change_state(&mut self, state: SpeechDetectorState)
        ensures
            final(self)@ == (DetectorView { state, ..old(self)@ }),
    {
        proof {
            use_type_invariant(&*self);
        }
        self.state = state;
    }
}

} // verus!
