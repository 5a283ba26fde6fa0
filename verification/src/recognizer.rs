//! The recognition buffer: one detector per utterance, the event it last
//! raised, and the hand-off of finished speech to a recognition task.

use crate::slot::{open_slot, poll_slot, resolve, share_sender};
use crate::speech_detector::{
    event_of, in_sensitivity_of, initial_view, out_sensitivity_of, step, Detector8kHz,
    DetectorView, SpeechDetectorEvent, SpeechDetectorState,
};
use crate::trace::at_start;
use std::sync::mpsc::{Receiver, Sender};
use vstd::prelude::*;

verus! {

/// Speech-onset threshold of every prepared utterance.
pub const SPEECH_ONSET_THRESHOLD: usize = 100;

/// Speech-onset threshold of a buffer that was never prepared.
pub const DEFAULT_SPEECH_TIMEOUT: usize = 200;

/// Silence threshold of a buffer that was never prepared.
pub const DEFAULT_SILENCE_TIMEOUT: usize = 1000;

/// No-input budget of a buffer that was never prepared.
pub const DEFAULT_NOINPUT_TIMEOUT: usize = 5000;

/// Duration budget of a buffer that was never prepared.
pub const DEFAULT_DURATION_TIMEOUT: usize = 20000;

/// The values of a recognize request that the buffer works with.
#[derive(Debug, Clone, Copy)]
pub struct RecognizeParams {
    /// Whether the no-input timing starts with the request.
    pub start_input_timers: bool,
    /// Silence threshold.
    pub silence_timeout: usize,
    /// No-input budget.
    pub noinput_timeout: usize,
    /// Duration budget of the whole utterance.
    pub recognition_timeout: usize,
    /// Sensitivity in percent.
    pub sensitivity: usize,
}

/// Speech on its way to a recognition task, with the sending end through
/// which the task delivers its text.
#[derive(Debug)]
pub struct Handoff {
    /// The speech that was buffered.
    pub data: Vec<u8>,
    /// Where the recognized text goes.
    pub reply: Sender<String>,
}

/// The buffer as a mathematical value.
pub struct BufferView {
    pub detector: DetectorView,
    pub event: SpeechDetectorEvent,
}

/// The buffer that `RecogBuffer::new` builds: a detector with the default
/// budgets and timers that were not started.
pub open spec fn unprepared() -> BufferView {
    BufferView {
        detector: initial_view(
            false,
            DEFAULT_SPEECH_TIMEOUT as nat,
            DEFAULT_SILENCE_TIMEOUT as nat,
            DEFAULT_NOINPUT_TIMEOUT as nat,
            DEFAULT_DURATION_TIMEOUT as nat,
        ),
        event: SpeechDetectorEvent::NoEvent,
    }
}

/// The buffer at the start of the utterance that `params` describe.
pub open spec fn prepared(params: RecognizeParams) -> BufferView {
    BufferView {
        detector: DetectorView {
            in_sensitivity: in_sensitivity_of(params.sensitivity as nat),
            out_sensitivity: out_sensitivity_of(in_sensitivity_of(params.sensitivity as nat)),
            ..initial_view(
                params.start_input_timers,
                SPEECH_ONSET_THRESHOLD as nat,
                params.silence_timeout as nat,
                params.noinput_timeout as nat,
                params.recognition_timeout as nat,
            )
        },
        event: SpeechDetectorEvent::NoEvent,
    }
}

/// Whether input counts as started: always where the no-input timing was
/// never started, else once speech was recorded as begun.
pub open spec fn input_started_of(d: DetectorView) -> bool {
    if d.timers_started {
        d.input_started
    } else {
        true
    }
}

/// The buffer after one frame: the detector takes the frame, and the event it
/// raises is remembered unless a recognition is outstanding.
pub open spec fn written(b: BufferView, frame: Seq<u8>, duration: nat) -> BufferView {
    BufferView {
        detector: step(b.detector, frame, duration),
        event: if b.event == SpeechDetectorEvent::Recognizing {
            SpeechDetectorEvent::Recognizing
        } else {
            event_of(b.detector, duration)
        },
    }
}

/// What is left of the no-input budget after a span of `duration`: the budget
/// is only spent while the timers run, and never below zero.
pub open spec fn noinput_after(d: DetectorView, duration: nat) -> nat {
    if !d.timers_started {
        d.noinput_timeout
    } else if duration > d.noinput_timeout {
        0
    } else {
        (d.noinput_timeout - duration) as nat
    }
}

/// The buffer after the hand-off of a span of `duration`.
pub open spec fn handed_off(b: BufferView, duration: nat) -> BufferView {
    BufferView {
        detector: DetectorView {
            speech: Seq::empty(),
            noinput_timeout: noinput_after(b.detector, duration),
            ..b.detector
        },
        event: SpeechDetectorEvent::Recognizing,
    }
}

/// The buffer after a restart: nothing is remembered.
pub open spec fn restarted(b: BufferView) -> BufferView {
    BufferView { event: SpeechDetectorEvent::NoEvent, ..b }
}

/// Every prepared buffer is at the start of an utterance and remembers
/// nothing, whatever the request.
pub proof fn prepared_is_at_start(params: RecognizeParams)
    ensures
        at_start(prepared(params).detector),
        prepared(params).event == SpeechDetectorEvent::NoEvent,
{
}

/// Recognition buffer of one channel.
#[derive(Debug)]
pub struct RecogBuffer {
    speech_detector: Detector8kHz,
    speech_detector_event: SpeechDetectorEvent,
    sender: Sender<String>,
    receiver: Receiver<String>,
}

impl View for RecogBuffer {
    type V = BufferView;

    closed spec fn view(&self) -> BufferView {
        BufferView { detector: self.speech_detector@, event: self.speech_detector_event }
    }
}

impl RecogBuffer {
    /// A buffer with an empty result slot and a detector with the default
    /// budgets. Frames written before `prepare` go to that detector.
    pub fn new() -> (buffer: Self)
        ensures
            buffer@ == unprepared(),
    {
        let (sender, receiver) = open_slot();
        Self {
            speech_detector: Detector8kHz::new(
                false,
                DEFAULT_SPEECH_TIMEOUT,
                DEFAULT_SILENCE_TIMEOUT,
                DEFAULT_NOINPUT_TIMEOUT,
                DEFAULT_DURATION_TIMEOUT,
            ),
            speech_detector_event: SpeechDetectorEvent::NoEvent,
            sender,
            receiver,
        }
    }

    /// Starts a new utterance: a fresh detector with the budgets and the
    /// sensitivity of `params`, and no remembered event.
    pub fn prepare(&mut self, params: RecognizeParams)
        ensures
            final(self)@ == prepared(params),
    {
        self.speech_detector_event = SpeechDetectorEvent::NoEvent;
        self.speech_detector = Detector8kHz::new(
            params.start_input_timers,
            SPEECH_ONSET_THRESHOLD,
            params.silence_timeout,
            params.noinput_timeout,
            params.recognition_timeout,
        );
        self.speech_detector.set_mode(params.sensitivity);
    }

    /// Starts the no-input timing.
    pub fn start_input_timers(&mut self)
        ensures
            final(self)@ == (BufferView {
                detector: DetectorView { timers_started: true, ..old(self)@.detector },
                ..old(self)@
            }),
    {
        self.speech_detector.start_input_timers();
    }

    /// Records that speech has begun.
    pub fn start_input(&mut self)
        ensures
            final(self)@ == (BufferView {
                detector: DetectorView { input_started: true, ..old(self)@.detector },
                ..old(self)@
            }),
    {
        self.speech_detector.start_input();
    }

    /// Whether input counts as started.
    pub fn input_started(&self) -> (started: bool)
        ensures
            started == input_started_of(self@.detector),
    {
        if self.speech_detector.timers_started() {
            self.speech_detector.input_started()
        } else {
            true
        }
    }

    /// Feeds one frame of `frame_duration` to the detector and remembers the
    /// event it raised, unless a recognition is outstanding: then the
    /// remembered `Recognizing` stays. The whole frame is always consumed.
    pub fn write(&mut self, buf: &[u8], frame_duration: usize) -> (consumed: usize)
        requires
            old(self)@.detector.state != SpeechDetectorState::Exhausted ==> old(
                self,
            )@.detector.total_duration + frame_duration <= usize::MAX,
        ensures
            consumed == buf@.len(),
            final(self)@ == written(old(self)@, buf@, frame_duration as nat),
    {
        let next_event = self.speech_detector.process(buf, frame_duration);
        if self.speech_detector_event != SpeechDetectorEvent::Recognizing {
            self.speech_detector_event = next_event;
        }
        buf.len()
    }

    /// The remembered event; reading it changes nothing.
    pub fn detector_event(&self) -> (event: SpeechDetectorEvent)
        ensures
            event == self@.event,
    {
        self.speech_detector_event
    }

    /// The duration budget of the utterance.
    pub fn duration_timeout(&self) -> (budget: usize)
        ensures
            budget == self@.detector.duration_timeout,
    {
        self.speech_detector.duration_timeout()
    }

    /// The detector of the current utterance.
    pub fn detector(&self) -> (detector: &Detector8kHz)
        ensures
            detector@ == self@.detector,
    {
        &self.speech_detector
    }

    /// Spends `duration` of the no-input budget while the timers run.
    fn decrease_noinput(&mut self, duration: usize)
        ensures
            final(self)@ == (BufferView {
                detector: DetectorView {
                    noinput_timeout: noinput_after(old(self)@.detector, duration as nat),
                    ..old(self)@.detector
                },
                ..old(self)@
            }),
    {
        if !self.speech_detector.timers_started() {
            return ;
        }
        let remaining: usize = self.speech_detector.noinput_timeout();
        if duration > remaining {
            self.speech_detector.set_noinput_timeout(0);
        } else {
            self.speech_detector.set_noinput_timeout(remaining - duration);
        }
    }

    /// Forgets the remembered event, so that frames are taken again as if no
    /// recognition had been started.
    pub fn restart_writing(&mut self)
        ensures
            final(self)@ == restarted(old(self)@),
    {
        self.speech_detector_event = SpeechDetectorEvent::NoEvent;
    }

    /// Looks into the result slot without waiting. What comes back is decided
    /// by the recognition task: `resolve` says what each finding yields.
    pub fn load_result(&self) -> (loaded: Option<String>) {
        let poll = poll_slot(&self.receiver);
        resolve(poll)
    }

    /// Closes a span of speech of `duration`: the buffered speech leaves the
    /// buffer, which is empty afterwards whatever it held, the no-input budget
    /// is spent, and `Recognizing` is remembered. The speech comes back with a
    /// sending end of the result slot, for the recognition task to start on.
    pub fn recognize(&mut self, duration: usize) -> (handoff: Handoff)
        ensures
            handoff.data@ == old(self)@.detector.speech,
            final(self)@ == handed_off(old(self)@, duration as nat),
            final(self)@.detector.speech == Seq::<u8>::empty(),
            final(self)@.detector.noinput_timeout <= old(self)@.detector.noinput_timeout,
    {
        let data = self.speech_detector.take_speech();
        self.decrease_noinput(duration);
        self.speech_detector_event = SpeechDetectorEvent::Recognizing;
        let reply = share_sender(&self.sender);
        Handoff { data, reply }
    }
}

} // verus!
