use rsplayer::record_state::encoder_settings;
use rsplayer::record_state::picture_accepted;
use rsplayer::record_state::encode_next;
use rsplayer::record_state::EncodeNext;
use rsplayer::record_state::EncoderSettings;
use rsplayer::record_state::RecordState;
use rsplayer::record_state::RecordStatus;
use rsplayer::record_state::SendOutcome;
use rsplayer::record_state::StartDecision;
use rsplayer::record_state::RECORD_CHANNEL_CAPACITY;
use rsplayer::timing::Rational;

const AGAIN: i32 = -11;
const EOF: i32 = -541_478_725;

fn hd() -> EncoderSettings {
    EncoderSettings {
        bit_rate: 400_000,
        width: 1280,
        height: 720,
        gop_size: 10,
        max_b_frames: 1,
        time_base: Rational { num: 1, den: 25 },
        framerate: Rational { num: 25, den: 1 },
    }
}

#[test]
fn sink_starts_idle() {
    let sink = RecordState::new();
    assert_eq!(sink, RecordState { status: RecordStatus::Idle, disabled: false, paused: false });
    assert!(!sink.is_recording());
    assert!(!sink.wants_picture());
    assert_eq!(RECORD_CHANNEL_CAPACITY, 3);
}

#[test]
fn encoder_settings_for_a_size() {
    assert_eq!(encoder_settings(1280, 720), hd());
    assert_eq!(encoder_settings(2, 4).width, 2);
    assert_eq!(encoder_settings(2, 4).height, 4);
}

#[test]
fn recording_starts_when_the_output_opens() {
    let mut sink = RecordState::new();
    assert_eq!(sink.start_recording_thread(), StartDecision::Open { settings: hd() });
    assert!(!sink.is_recording());
    assert!(!sink.opened(true));
    assert!(sink.is_recording());
    assert!(sink.wants_picture());
    assert_eq!(sink.start_recording_thread(), StartDecision::AlreadyRecording);
    assert!(!sink.opened(false));
    assert!(sink.is_recording());
}

#[test]
fn failure_to_open_is_reported_once_and_disables_recording() {
    let mut sink = RecordState::new();
    assert_eq!(sink.start_recording_thread(), StartDecision::Open { settings: hd() });
    assert!(sink.opened(false));
    assert!(!sink.is_recording());
    assert!(sink.disabled);
    assert_eq!(sink.start_recording_thread(), StartDecision::Disabled);
    assert!(!sink.opened(false));
    assert!(!sink.opened(true));
    assert!(!sink.is_recording());
    assert!(!sink.wants_picture());
}

#[test]
fn stop_returns_the_sink_to_idle() {
    let mut sink = RecordState::new();
    assert!(!sink.stop());
    assert!(!sink.opened(true));
    assert!(sink.stop());
    assert_eq!(sink, RecordState::new());
    assert!(!sink.stop());
    assert_eq!(sink.start_recording_thread(), StartDecision::Open { settings: hd() });
}

#[test]
fn a_picture_that_was_not_taken_stays_with_the_caller() {
    let sink = RecordState::new();
    assert!(!sink.sent(SendOutcome::Sent));
    assert!(sink.sent(SendOutcome::Full));
    assert!(sink.sent(SendOutcome::Closed));
}

#[test]
fn encoder_round() {
    assert!(picture_accepted(0));
    assert!(picture_accepted(1));
    assert!(!picture_accepted(-1));
    assert!(!picture_accepted(AGAIN));
    assert_eq!(encode_next(0, AGAIN, EOF), EncodeNext::WriteAndContinue);
    assert_eq!(encode_next(5, AGAIN, EOF), EncodeNext::WriteAndContinue);
    assert_eq!(encode_next(AGAIN, AGAIN, EOF), EncodeNext::Stop);
    assert_eq!(encode_next(EOF, AGAIN, EOF), EncodeNext::Stop);
    assert_eq!(encode_next(-22, AGAIN, EOF), EncodeNext::WriteAndStop);
}
