//! Speech endpointing and recognition buffering for a stream of fixed-duration
//! audio frames.
//!
//! * [`speech_detector`]: the endpointing state machine, one call per frame.
//! * [`trace`]: what the state machine emits over whole sequences of frames.
//! * [`recognizer`]: the buffer that owns a detector per utterance, remembers
//!   its last event and hands finished speech off.
//! * [`slot`]: the pending-result slot between a recognition task and the
//!   frame path.
//! * [`handoff`]: the recognition task's side of a hand-off.
//! * [`policy`]: what each event asks of the channel that owns the buffer.

pub mod handoff;
pub mod policy;
pub mod recognizer;
pub mod slot;
pub mod speech_detector;
pub mod trace;
