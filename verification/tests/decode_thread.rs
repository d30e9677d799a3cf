use rsplayer::decode_thread::check_lock;
use rsplayer::decode_thread::check_receive;
use rsplayer::decode_thread::check_send;
use rsplayer::decode_thread::decode_thread_step;
use rsplayer::decode_thread::DecodeAction;
use rsplayer::decode_thread::DecodeError;
use rsplayer::decode_thread::DecodeEvent;
use rsplayer::decode_thread::DecodeState;
use rsplayer::decode_thread::DecodeStep;
use rsplayer::decode_thread::BACKOFF_MICROS;
use rsplayer::decode_thread::POLL_MICROS;
use rsplayer::movie_state::FrameWrapper;
use rsplayer::movie_state::MovieState;
use rsplayer::movie_state::PacketWrapper;

const AGAIN: i32 = -11;
const EOF: i32 = -541_478_725;

fn unit(pts: i64) -> PacketWrapper<u32> {
    PacketWrapper { pts, stream_index: 0, data: pts as u32 }
}

fn scratch(pts: i64) -> FrameWrapper<Vec<u8>> {
    FrameWrapper { pts, width: 4, height: 2, format: 0, buffer: vec![pts as u8; 3] }
}

fn decoded(ok: bool) -> DecodeEvent {
    DecodeEvent::Decoded { outcome: if ok { Ok(()) } else { Err(DecodeError::ReceiveFailed) } }
}

#[test]
fn back_off_times() {
    assert_eq!(POLL_MICROS, 10);
    assert_eq!(BACKOFF_MICROS, 70_000);
}

#[test]
fn decoder_responses_are_classified() {
    assert_eq!(check_lock(true), Ok(()));
    assert_eq!(check_lock(false), Err(DecodeError::Busy));
    assert_eq!(check_send(0), Ok(()));
    assert_eq!(check_send(7), Ok(()));
    assert_eq!(check_send(-1), Err(DecodeError::SendFailed));
    assert_eq!(check_send(AGAIN), Err(DecodeError::SendFailed));
    assert_eq!(check_receive(0, AGAIN, EOF), Ok(()));
    assert_eq!(check_receive(3, AGAIN, EOF), Ok(()));
    assert_eq!(check_receive(AGAIN, AGAIN, EOF), Err(DecodeError::Again));
    assert_eq!(check_receive(EOF, AGAIN, EOF), Err(DecodeError::Again));
    assert_eq!(check_receive(-22, AGAIN, EOF), Err(DecodeError::ReceiveFailed));
    assert_eq!(check_receive(i32::MIN, AGAIN, EOF), Err(DecodeError::ReceiveFailed));
}

#[test]
fn decode_errors_have_their_messages() {
    assert_eq!(DecodeError::Busy.message(), "Error while locking the codec context.");
    assert_eq!(DecodeError::SendFailed.message(), "Error while sending a packet to the decoder.");
    assert_eq!(DecodeError::Again.message(), "EAGAIN");
    assert_eq!(
        DecodeError::ReceiveFailed.message(),
        "Error while receiving a frame from the decoder."
    );
    assert!(DecodeError::Busy.is_retryable());
    assert!(DecodeError::Again.is_retryable());
    assert!(!DecodeError::SendFailed.is_retryable());
    assert!(!DecodeError::ReceiveFailed.is_retryable());
}

#[test]
fn decoder_sleeps_while_nothing_is_queued() {
    let mut movie: MovieState<u32, Vec<u8>> = MovieState::new();
    let step = decode_thread_step(DecodeState::Fetching, DecodeEvent::Resumed, true, &mut movie, &scratch(0));
    assert_eq!(
        step,
        DecodeStep {
            state: DecodeState::Fetching,
            action: DecodeAction::Sleep { micros: 10 },
            release: None,
        }
    );
}

#[test]
fn decoder_takes_the_oldest_unit() {
    let mut movie: MovieState<u32, Vec<u8>> = MovieState::new();
    assert_eq!(movie.enqueue_packet(unit(1)), Ok(()));
    assert_eq!(movie.enqueue_packet(unit(2)), Ok(()));
    let step = decode_thread_step(DecodeState::Fetching, DecodeEvent::Resumed, true, &mut movie, &scratch(0));
    assert_eq!(
        step,
        DecodeStep { state: DecodeState::Decoding(unit(1)), action: DecodeAction::Decode, release: None }
    );
    assert_eq!(movie.videoqueue.len(), 1);
}

#[test]
fn decoded_picture_is_copied_to_the_queue_and_the_unit_released() {
    let mut movie: MovieState<u32, Vec<u8>> = MovieState::new();
    assert_eq!(movie.enqueue_packet(unit(2)), Ok(()));
    let mut picture = scratch(7);
    let step = decode_thread_step(DecodeState::Decoding(unit(1)), decoded(true), true, &mut movie, &picture);
    assert_eq!(
        step,
        DecodeStep {
            state: DecodeState::Decoding(unit(2)),
            action: DecodeAction::Decode,
            release: Some(unit(1)),
        }
    );
    picture.pts = 8;
    picture.buffer[0] = 99;
    assert_eq!(movie.picq.len(), 1);
    assert_eq!(movie.dequeue_frame(), Some(scratch(7)));
    assert!(movie.videoqueue.is_empty());
}

#[test]
fn unit_is_released_when_the_decoder_gave_no_picture() {
    let mut movie: MovieState<u32, Vec<u8>> = MovieState::new();
    for outcome in [
        DecodeError::Busy,
        DecodeError::SendFailed,
        DecodeError::Again,
        DecodeError::ReceiveFailed,
    ] {
        let step = decode_thread_step(
            DecodeState::Decoding(unit(1)),
            DecodeEvent::Decoded { outcome: Err(outcome) },
            true,
            &mut movie,
            &scratch(7),
        );
        assert_eq!(
            step,
            DecodeStep {
                state: DecodeState::Fetching,
                action: DecodeAction::Sleep { micros: 10 },
                release: Some(unit(1)),
            }
        );
        assert!(movie.picq.is_empty());
    }
}

#[test]
fn full_picture_queue_makes_the_decoder_wait() {
    let mut movie: MovieState<u32, Vec<u8>> = MovieState::new();
    for pts in 0..4 {
        assert_eq!(movie.enqueue_frame(scratch(pts)), Ok(()));
    }
    let step = decode_thread_step(DecodeState::Decoding(unit(1)), decoded(true), true, &mut movie, &scratch(9));
    assert_eq!(
        step,
        DecodeStep {
            state: DecodeState::Publishing(unit(1)),
            action: DecodeAction::Sleep { micros: 70_000 },
            release: None,
        }
    );
    let step = decode_thread_step(step.state, DecodeEvent::Resumed, true, &mut movie, &scratch(9));
    assert_eq!(step.state, DecodeState::Publishing(unit(1)));
    assert_eq!(step.action, DecodeAction::Sleep { micros: 70_000 });
    assert_eq!(movie.picq.len(), 4);

    assert_eq!(movie.dequeue_frame(), Some(scratch(0)));
    let step = decode_thread_step(step.state, DecodeEvent::Resumed, true, &mut movie, &scratch(9));
    assert_eq!(
        step,
        DecodeStep {
            state: DecodeState::Fetching,
            action: DecodeAction::Sleep { micros: 10 },
            release: Some(unit(1)),
        }
    );
    assert_eq!(movie.picq.len(), 4);
    assert_eq!(movie.picq.drain().last(), Some(&scratch(9)));
}

#[test]
fn waiting_picture_is_given_up_on_shutdown() {
    let mut movie: MovieState<u32, Vec<u8>> = MovieState::new();
    let step = decode_thread_step(
        DecodeState::Publishing(unit(1)),
        DecodeEvent::Resumed,
        false,
        &mut movie,
        &scratch(9),
    );
    assert_eq!(
        step,
        DecodeStep { state: DecodeState::Flushing, action: DecodeAction::Flush, release: Some(unit(1)) }
    );
    assert!(movie.picq.is_empty());
}

#[test]
fn decoder_flushes_and_exits_on_shutdown() {
    let mut movie: MovieState<u32, Vec<u8>> = MovieState::new();
    assert_eq!(movie.enqueue_packet(unit(1)), Ok(()));
    let step = decode_thread_step(DecodeState::Fetching, DecodeEvent::Resumed, false, &mut movie, &scratch(0));
    assert_eq!(
        step,
        DecodeStep { state: DecodeState::Flushing, action: DecodeAction::Flush, release: None }
    );
    assert_eq!(movie.videoqueue.len(), 1);
    let step = decode_thread_step(step.state, DecodeEvent::Flushed, false, &mut movie, &scratch(0));
    assert_eq!(
        step,
        DecodeStep { state: DecodeState::Finished, action: DecodeAction::Exit, release: None }
    );
    let step = decode_thread_step(step.state, DecodeEvent::Resumed, true, &mut movie, &scratch(0));
    assert_eq!(step.state, DecodeState::Finished);
    assert_eq!(step.action, DecodeAction::Exit);
    assert_eq!(movie.videoqueue.len(), 1);
}

#[test]
fn shutdown_seen_after_a_decode_still_releases_the_unit() {
    let mut movie: MovieState<u32, Vec<u8>> = MovieState::new();
    assert_eq!(movie.enqueue_packet(unit(2)), Ok(()));
    let step = decode_thread_step(DecodeState::Decoding(unit(1)), decoded(true), false, &mut movie, &scratch(3));
    assert_eq!(
        step,
        DecodeStep { state: DecodeState::Flushing, action: DecodeAction::Flush, release: Some(unit(1)) }
    );
    assert_eq!(movie.picq.len(), 1);
    assert_eq!(movie.videoqueue.len(), 1);
}

#[test]
fn report_that_does_not_fit_repeats_the_work() {
    let mut movie: MovieState<u32, Vec<u8>> = MovieState::new();
    let step = decode_thread_step(DecodeState::Decoding(unit(1)), DecodeEvent::Resumed, true, &mut movie, &scratch(0));
    assert_eq!(
        step,
        DecodeStep { state: DecodeState::Decoding(unit(1)), action: DecodeAction::Decode, release: None }
    );
    let step = decode_thread_step(DecodeState::Publishing(unit(1)), decoded(true), true, &mut movie, &scratch(0));
    assert_eq!(
        step,
        DecodeStep {
            state: DecodeState::Publishing(unit(1)),
            action: DecodeAction::Sleep { micros: 70_000 },
            release: None,
        }
    );
    let step = decode_thread_step(DecodeState::Flushing, DecodeEvent::Resumed, true, &mut movie, &scratch(0));
    assert_eq!(
        step,
        DecodeStep { state: DecodeState::Flushing, action: DecodeAction::Flush, release: None }
    );
    assert!(movie.picq.is_empty());
}

#[test]
fn every_unit_fetched_is_released_once() {
    let mut movie: MovieState<u32, Vec<u8>> = MovieState::new();
    let mut state = DecodeState::Fetching;
    let mut event = DecodeEvent::Resumed;
    let mut queued: u32 = 0;
    let mut released: Vec<u32> = Vec::new();
    let mut shown = 0;
    for round in 0..400 {
        let running = round < 300;
        if running && round % 3 == 0 {
            queued += 1;
            if movie.enqueue_packet(PacketWrapper { pts: 0, stream_index: 0, data: queued }).is_err() {
                queued -= 1;
            }
        }
        if round % 5 == 0 && movie.dequeue_frame().is_some() {
            shown += 1;
        }
        let step = decode_thread_step(state, event, running, &mut movie, &scratch(round));
        if let Some(packet) = step.release {
            released.push(packet.data);
        }
        event = match step.action {
            DecodeAction::Decode => decoded(round % 4 != 0),
            DecodeAction::Flush => DecodeEvent::Flushed,
            _ => DecodeEvent::Resumed,
        };
        state = step.state;
        assert!(movie.picq.len() <= 4);
    }
    assert_eq!(state, DecodeState::Finished);
    let left: Vec<u32> = movie.clear_packet_queue().into_iter().map(|packet| packet.data).collect();
    let mut all = released.clone();
    all.extend(left);
    let expected: Vec<u32> = (1..=queued).collect();
    assert_eq!(all, expected);
    assert!(shown > 0);
}
