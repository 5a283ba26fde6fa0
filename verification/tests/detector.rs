use speech_endpoint::speech_detector::{
    Detector8kHz, SpeechDetectorEvent, SpeechDetectorState, MAX_SENSITIVITY,
    SPEECH_FLUSH_THRESHOLD,
};

fn speaking(budget: usize) -> Detector8kHz {
    let mut detector = Detector8kHz::new(true, 100, 1000, 5000, budget);
    assert_eq!(detector.process(&[0u8; 4], 10), SpeechDetectorEvent::NoEvent);
    assert_eq!(detector.process(&[0u8; 4], 10), SpeechDetectorEvent::Activity);
    detector
}

#[test]
fn new_detector_is_silent_and_empty() {
    let detector = Detector8kHz::new(true, 100, 1000, 5000, 20000);
    assert_eq!(detector.state(), SpeechDetectorState::Inactivity);
    assert!(detector.speech().is_empty());
    assert_eq!(detector.speech_timeout(), 100);
    assert_eq!(detector.silence_timeout(), 1000);
    assert!(detector.timers_started());
    assert!(!detector.input_started());
    assert_eq!(detector.noinput_timeout(), 5000);
    assert_eq!(detector.duration_timeout(), 20000);
    assert_eq!(detector.activity_duration(), 0);
    assert_eq!(detector.total_duration(), 0);
    assert_eq!(detector.in_sensitivity(), 32);
    assert_eq!(detector.out_sensitivity(), 512);
}

#[test]
fn first_frame_raises_nothing_and_is_not_kept() {
    let mut detector = Detector8kHz::new(false, 100, 1000, 5000, 20000);
    assert_eq!(detector.process(&[1, 2, 3], 10), SpeechDetectorEvent::NoEvent);
    assert_eq!(detector.state(), SpeechDetectorState::ActivityTransition);
    assert!(detector.speech().is_empty());
    assert_eq!(detector.total_duration(), 10);
}

#[test]
fn second_frame_raises_activity_and_records_onset() {
    let mut detector = Detector8kHz::new(false, 100, 1000, 5000, 20000);
    detector.process(&[1, 2, 3], 10);
    assert_eq!(detector.process(&[4, 5, 6], 20), SpeechDetectorEvent::Activity);
    assert_eq!(detector.state(), SpeechDetectorState::Activity);
    assert_eq!(detector.activity_duration(), 20);
    assert_eq!(detector.total_duration(), 30);
    assert!(detector.speech().is_empty());
}

#[test]
fn active_frames_are_buffered_in_order() {
    let mut detector = speaking(20000);
    assert_eq!(detector.process(&[1, 2], 10), SpeechDetectorEvent::NoEvent);
    assert_eq!(detector.process(&[3], 10), SpeechDetectorEvent::NoEvent);
    assert_eq!(detector.speech(), &[1u8, 2, 3][..]);
    assert_eq!(detector.activity_duration(), 30);
    assert_eq!(detector.total_duration(), 40);
    assert_eq!(detector.state(), SpeechDetectorState::Activity);
}

#[test]
fn buffer_at_the_threshold_stays_in_speech() {
    let mut detector = speaking(20000);
    let frame = vec![7u8; SPEECH_FLUSH_THRESHOLD];
    assert_eq!(detector.process(&frame, 10), SpeechDetectorEvent::NoEvent);
    assert_eq!(detector.speech().len(), 16000);
    assert_eq!(detector.state(), SpeechDetectorState::Activity);
}

#[test]
fn buffer_over_the_threshold_closes_the_span() {
    let mut detector = speaking(20000);
    let frame = vec![7u8; SPEECH_FLUSH_THRESHOLD];
    detector.process(&frame, 10);
    assert_eq!(detector.process(&[8], 10), SpeechDetectorEvent::NoEvent);
    assert_eq!(detector.state(), SpeechDetectorState::InactivityTransition);
    assert_eq!(detector.speech().len(), 16001);
    assert_eq!(
        detector.process(&[9, 9], 10),
        SpeechDetectorEvent::Inactivity { duration: 30 }
    );
    assert_eq!(detector.state(), SpeechDetectorState::Inactivity);
    assert_eq!(detector.speech().len(), 16003);
    assert_eq!(detector.speech()[16000], 8);
    assert_eq!(detector.speech()[16002], 9);
    assert_eq!(detector.total_duration(), 50);
}

#[test]
fn speech_begins_again_after_a_closed_span() {
    let mut detector = speaking(20000);
    detector.process(&vec![0u8; 16001], 10);
    assert_eq!(
        detector.process(&[], 10),
        SpeechDetectorEvent::Inactivity { duration: 20 }
    );
    assert_eq!(detector.process(&[1], 10), SpeechDetectorEvent::NoEvent);
    assert_eq!(detector.process(&[1], 7), SpeechDetectorEvent::Activity);
    assert_eq!(detector.activity_duration(), 7);
}

#[test]
fn reaching_the_budget_exactly_raises_duration_timeout() {
    let mut detector = Detector8kHz::new(true, 100, 1000, 5000, 20);
    assert_eq!(detector.process(&[0], 10), SpeechDetectorEvent::NoEvent);
    assert_eq!(detector.process(&[0], 10), SpeechDetectorEvent::DurationTimeout);
    assert_eq!(detector.state(), SpeechDetectorState::Exhausted);
    assert_eq!(detector.total_duration(), 20);
    assert_eq!(detector.activity_duration(), 10);
}

#[test]
fn duration_timeout_wins_over_inactivity() {
    let mut detector = speaking(40);
    detector.process(&vec![0u8; 16001], 10);
    assert_eq!(detector.state(), SpeechDetectorState::InactivityTransition);
    assert_eq!(detector.process(&[5], 10), SpeechDetectorEvent::DurationTimeout);
    assert_eq!(detector.state(), SpeechDetectorState::Exhausted);
    assert_eq!(detector.speech().len(), 16002);
}

#[test]
fn passing_the_budget_raises_duration_timeout() {
    let mut detector = Detector8kHz::new(true, 100, 1000, 5000, 15);
    assert_eq!(detector.process(&[0], 10), SpeechDetectorEvent::NoEvent);
    assert_eq!(detector.process(&[0], 10), SpeechDetectorEvent::DurationTimeout);
}

#[test]
fn budget_of_zero_exhausts_on_the_first_frame() {
    let mut detector = Detector8kHz::new(true, 100, 1000, 5000, 0);
    assert_eq!(detector.process(&[0], 0), SpeechDetectorEvent::DurationTimeout);
    assert_eq!(detector.state(), SpeechDetectorState::Exhausted);
}

#[test]
fn exhausted_detector_only_raises_noinput() {
    let mut detector = speaking(30);
    assert_eq!(detector.process(&[1, 2], 10), SpeechDetectorEvent::DurationTimeout);
    let speech = detector.speech().to_vec();
    for _ in 0..50 {
        assert_eq!(detector.process(&[3, 4], 10), SpeechDetectorEvent::Noinput);
        assert_eq!(detector.state(), SpeechDetectorState::Exhausted);
    }
    assert_eq!(detector.total_duration(), 30);
    assert_eq!(detector.speech(), &speech[..]);
}

#[test]
fn short_utterance_raises_activity_once() {
    let mut detector = Detector8kHz::new(true, 100, 1000, 5000, 20000);
    let mut events = Vec::new();
    for _ in 0..100 {
        events.push(detector.process(&[0u8; 160], 10));
    }
    assert_eq!(detector.speech().len(), 98 * 160);
    assert_eq!(events[0], SpeechDetectorEvent::NoEvent);
    assert_eq!(events[1], SpeechDetectorEvent::Activity);
    let activities = events
        .iter()
        .filter(|event| **event == SpeechDetectorEvent::Activity)
        .count();
    let others = events
        .iter()
        .filter(|event| **event != SpeechDetectorEvent::Activity)
        .filter(|event| **event != SpeechDetectorEvent::NoEvent)
        .count();
    assert_eq!(activities, 1);
    assert_eq!(others, 0);
}

#[test]
fn zero_length_frames_still_count_their_duration() {
    let mut detector = speaking(20000);
    assert_eq!(detector.process(&[], 10), SpeechDetectorEvent::NoEvent);
    assert!(detector.speech().is_empty());
    assert_eq!(detector.total_duration(), 30);
    assert_eq!(detector.activity_duration(), 20);
}

#[test]
fn sensitivity_above_full_clamps_to_full() {
    let mut clamped = Detector8kHz::new(true, 100, 1000, 5000, 20000);
    let mut full = Detector8kHz::new(true, 100, 1000, 5000, 20000);
    clamped.set_mode(150);
    full.set_mode(100);
    assert_eq!(clamped.in_sensitivity(), full.in_sensitivity());
    assert_eq!(clamped.out_sensitivity(), full.out_sensitivity());
    assert_eq!(full.in_sensitivity(), 100);
    assert_eq!(full.out_sensitivity(), MAX_SENSITIVITY);
    clamped.set_mode(usize::MAX);
    assert_eq!(clamped.in_sensitivity(), 100);
    assert_eq!(clamped.out_sensitivity(), 1200);
}

#[test]
fn sensitivity_sets_both_thresholds() {
    let mut detector = Detector8kHz::new(true, 100, 1000, 5000, 20000);
    detector.set_mode(50);
    assert_eq!(detector.in_sensitivity(), 50);
    assert_eq!(detector.out_sensitivity(), 800);
    detector.set_mode(0);
    assert_eq!(detector.in_sensitivity(), 0);
    assert_eq!(detector.out_sensitivity(), 0);
    detector.set_mode(74);
    assert_eq!(detector.out_sensitivity(), 1184);
    detector.set_mode(75);
    assert_eq!(detector.out_sensitivity(), 1200);
    detector.set_mode(76);
    assert_eq!(detector.in_sensitivity(), 76);
    assert_eq!(detector.out_sensitivity(), 1200);
}

#[test]
fn sensitivity_leaves_the_state_machine_alone() {
    let mut detector = speaking(20000);
    detector.process(&[1, 2, 3], 10);
    detector.set_mode(10);
    assert_eq!(detector.state(), SpeechDetectorState::Activity);
    assert_eq!(detector.speech(), &[1u8, 2, 3][..]);
    assert_eq!(detector.total_duration(), 30);
}

#[test]
fn detector_mutators_change_one_thing() {
    let mut detector = Detector8kHz::new(false, 100, 1000, 5000, 20000);
    detector.start_input_timers();
    assert!(detector.timers_started());
    assert!(!detector.input_started());
    detector.start_input();
    assert!(detector.input_started());
    assert_eq!(detector.noinput_timeout(), 5000);
    assert_eq!(detector.duration_timeout(), 20000);
}

#[test]
fn take_speech_empties_the_buffer() {
    let mut detector = speaking(20000);
    detector.process(&[1, 2, 3], 10);
    assert_eq!(detector.take_speech(), vec![1u8, 2, 3]);
    assert!(detector.speech().is_empty());
    assert!(detector.take_speech().is_empty());
    assert_eq!(detector.state(), SpeechDetectorState::Activity);
}
