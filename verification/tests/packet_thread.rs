use rsplayer::movie_state::MovieState;
use rsplayer::movie_state::PacketWrapper;
use rsplayer::packet_thread::packet_thread_step;
use rsplayer::packet_thread::ReaderAction;
use rsplayer::packet_thread::ReaderEvent;
use rsplayer::packet_thread::ReaderState;
use rsplayer::packet_thread::ReaderStep;

const EOF: i32 = -541_478_725;

fn unit(pts: i64, stream_index: i32) -> PacketWrapper<u32> {
    PacketWrapper { pts, stream_index, data: 11 }
}

fn source() -> MovieState<u32, u32> {
    let mut movie = MovieState::new();
    movie.video_stream_idx = 1;
    movie
}

fn rewind() -> ReaderAction {
    ReaderAction::Seek { stream_index: 1, timestamp: 0, backward: true }
}

#[test]
fn reader_reads_at_the_head_of_the_loop() {
    let mut movie = source();
    let step = packet_thread_step(ReaderState::Reading, ReaderEvent::Resumed, true, true, EOF, &mut movie);
    assert_eq!(
        step,
        ReaderStep { state: ReaderState::Reading, action: ReaderAction::Read, release: None, keep_running: true }
    );
}

#[test]
fn reader_stops_when_the_source_no_longer_runs() {
    let mut movie = source();
    let step = packet_thread_step(ReaderState::Reading, ReaderEvent::Resumed, false, true, EOF, &mut movie);
    assert_eq!(
        step,
        ReaderStep { state: ReaderState::Stopped, action: ReaderAction::Stop, release: None, keep_running: false }
    );
    let step = packet_thread_step(
        ReaderState::Reading,
        ReaderEvent::Read { response: 0, packet: unit(1, 1) },
        false,
        true,
        EOF,
        &mut movie,
    );
    assert_eq!(
        step,
        ReaderStep {
            state: ReaderState::Stopped,
            action: ReaderAction::Stop,
            release: Some(unit(1, 1)),
            keep_running: false,
        }
    );
    assert!(movie.videoqueue.is_empty());
}

#[test]
fn unit_of_the_video_stream_is_queued() {
    let mut movie = source();
    let step = packet_thread_step(
        ReaderState::Reading,
        ReaderEvent::Read { response: 0, packet: unit(5, 1) },
        true,
        false,
        EOF,
        &mut movie,
    );
    assert_eq!(
        step,
        ReaderStep { state: ReaderState::Reading, action: ReaderAction::Yield, release: None, keep_running: true }
    );
    assert_eq!(movie.videoqueue.len(), 1);
    assert_eq!(movie.dequeue_packet(), Some(unit(5, 1)));
}

#[test]
fn unit_of_another_stream_is_released_at_once() {
    let mut movie = source();
    let step = packet_thread_step(
        ReaderState::Reading,
        ReaderEvent::Read { response: 0, packet: unit(5, 0) },
        true,
        false,
        EOF,
        &mut movie,
    );
    assert_eq!(
        step,
        ReaderStep {
            state: ReaderState::Reading,
            action: ReaderAction::Yield,
            release: Some(unit(5, 0)),
            keep_running: true,
        }
    );
    assert!(movie.videoqueue.is_empty());
}

#[test]
fn reader_waits_for_room_and_retries_after_each_yield() {
    let mut movie = source();
    for pts in 0..10 {
        assert_eq!(movie.enqueue_packet(unit(pts, 1)), Ok(()));
    }
    let step = packet_thread_step(
        ReaderState::Reading,
        ReaderEvent::Read { response: 0, packet: unit(10, 1) },
        true,
        false,
        EOF,
        &mut movie,
    );
    assert_eq!(
        step,
        ReaderStep {
            state: ReaderState::Waiting(unit(10, 1)),
            action: ReaderAction::Yield,
            release: None,
            keep_running: true,
        }
    );
    let step = packet_thread_step(step.state, ReaderEvent::Resumed, true, false, EOF, &mut movie);
    assert_eq!(step.state, ReaderState::Waiting(unit(10, 1)));
    assert_eq!(step.action, ReaderAction::Yield);
    assert_eq!(movie.videoqueue.len(), 10);

    assert_eq!(movie.dequeue_packet(), Some(unit(0, 1)));
    let step = packet_thread_step(step.state, ReaderEvent::Resumed, true, false, EOF, &mut movie);
    assert_eq!(
        step,
        ReaderStep { state: ReaderState::Reading, action: ReaderAction::Yield, release: None, keep_running: true }
    );
    assert_eq!(movie.videoqueue.len(), 10);
    let drained = movie.clear_packet_queue();
    assert_eq!(drained.last(), Some(&unit(10, 1)));
}

#[test]
fn waiting_unit_is_released_on_shutdown() {
    let mut movie = source();
    for pts in 0..10 {
        assert_eq!(movie.enqueue_packet(unit(pts, 1)), Ok(()));
    }
    let step = packet_thread_step(
        ReaderState::Waiting(unit(10, 1)),
        ReaderEvent::Resumed,
        false,
        true,
        EOF,
        &mut movie,
    );
    assert_eq!(
        step,
        ReaderStep {
            state: ReaderState::Stopped,
            action: ReaderAction::Stop,
            release: Some(unit(10, 1)),
            keep_running: false,
        }
    );
    assert_eq!(movie.videoqueue.len(), 10);
}

#[test]
fn end_of_stream_rewinds_in_loop_mode() {
    let mut movie = source();
    let step = packet_thread_step(
        ReaderState::Reading,
        ReaderEvent::Read { response: EOF, packet: unit(0, 0) },
        true,
        true,
        EOF,
        &mut movie,
    );
    assert_eq!(
        step,
        ReaderStep {
            state: ReaderState::Rewinding,
            action: rewind(),
            release: Some(unit(0, 0)),
            keep_running: true,
        }
    );
    let step = packet_thread_step(step.state, ReaderEvent::Sought { response: 0 }, true, true, EOF, &mut movie);
    assert_eq!(
        step,
        ReaderStep { state: ReaderState::Reading, action: ReaderAction::Read, release: None, keep_running: true }
    );
}

#[test]
fn end_of_stream_stops_the_source_without_loop_mode() {
    let mut movie = source();
    let step = packet_thread_step(
        ReaderState::Reading,
        ReaderEvent::Read { response: EOF, packet: unit(0, 0) },
        true,
        false,
        EOF,
        &mut movie,
    );
    assert_eq!(
        step,
        ReaderStep {
            state: ReaderState::Stopped,
            action: ReaderAction::Stop,
            release: Some(unit(0, 0)),
            keep_running: false,
        }
    );
    let step = packet_thread_step(step.state, ReaderEvent::Resumed, false, false, EOF, &mut movie);
    assert_eq!(step.state, ReaderState::Stopped);
    assert_eq!(step.action, ReaderAction::Stop);
}

#[test]
fn failed_read_stops_the_source() {
    let mut movie = source();
    let step = packet_thread_step(
        ReaderState::Reading,
        ReaderEvent::Read { response: -5, packet: unit(0, 1) },
        true,
        true,
        EOF,
        &mut movie,
    );
    assert_eq!(
        step,
        ReaderStep {
            state: ReaderState::Stopped,
            action: ReaderAction::Stop,
            release: Some(unit(0, 1)),
            keep_running: false,
        }
    );
    assert!(movie.videoqueue.is_empty());
}

#[test]
fn failed_seek_stops_the_source() {
    let mut movie = source();
    let step = packet_thread_step(
        ReaderState::Rewinding,
        ReaderEvent::Sought { response: -1 },
        true,
        true,
        EOF,
        &mut movie,
    );
    assert_eq!(
        step,
        ReaderStep { state: ReaderState::Stopped, action: ReaderAction::Stop, release: None, keep_running: false }
    );
}

#[test]
fn seek_done_after_shutdown_stops() {
    let mut movie = source();
    let step = packet_thread_step(
        ReaderState::Rewinding,
        ReaderEvent::Sought { response: 3 },
        false,
        true,
        EOF,
        &mut movie,
    );
    assert_eq!(
        step,
        ReaderStep { state: ReaderState::Stopped, action: ReaderAction::Stop, release: None, keep_running: false }
    );
}

#[test]
fn report_that_does_not_fit_changes_nothing_and_loses_no_unit() {
    let mut movie = source();
    let step = packet_thread_step(
        ReaderState::Waiting(unit(1, 1)),
        ReaderEvent::Read { response: 0, packet: unit(2, 1) },
        true,
        true,
        EOF,
        &mut movie,
    );
    assert_eq!(
        step,
        ReaderStep {
            state: ReaderState::Waiting(unit(1, 1)),
            action: ReaderAction::Yield,
            release: Some(unit(2, 1)),
            keep_running: true,
        }
    );
    let step = packet_thread_step(
        ReaderState::Rewinding,
        ReaderEvent::Read { response: 0, packet: unit(3, 1) },
        true,
        true,
        EOF,
        &mut movie,
    );
    assert_eq!(
        step,
        ReaderStep {
            state: ReaderState::Rewinding,
            action: rewind(),
            release: Some(unit(3, 1)),
            keep_running: true,
        }
    );
    let step = packet_thread_step(ReaderState::Rewinding, ReaderEvent::Resumed, true, true, EOF, &mut movie);
    assert_eq!(step.state, ReaderState::Rewinding);
    assert_eq!(step.action, rewind());
    let step = packet_thread_step(
        ReaderState::Stopped,
        ReaderEvent::Read { response: 0, packet: unit(4, 1) },
        true,
        true,
        EOF,
        &mut movie,
    );
    assert_eq!(
        step,
        ReaderStep {
            state: ReaderState::Stopped,
            action: ReaderAction::Stop,
            release: Some(unit(4, 1)),
            keep_running: true,
        }
    );
    assert!(movie.videoqueue.is_empty());
}

#[test]
fn every_unit_read_is_queued_or_released_once() {
    let mut movie = source();
    let mut state = ReaderState::Reading;
    let mut released: Vec<u32> = Vec::new();
    let mut decoded: Vec<u32> = Vec::new();
    let mut next: u32 = 0;
    let mut pending_read = false;
    for round in 0..200 {
        let running = round < 150;
        let event = if pending_read {
            next += 1;
            ReaderEvent::Read {
                response: 0,
                packet: PacketWrapper { pts: 0, stream_index: (next % 2) as i32, data: next },
            }
        } else {
            ReaderEvent::Resumed
        };
        let step = packet_thread_step(state, event, running, false, EOF, &mut movie);
        if let Some(packet) = step.release {
            released.push(packet.data);
        }
        pending_read = step.action == ReaderAction::Read;
        state = step.state;
        if round % 7 == 0 {
            if let Some(packet) = movie.dequeue_packet() {
                decoded.push(packet.data);
            }
        }
        assert!(movie.videoqueue.len() <= 10);
    }
    assert_eq!(state, ReaderState::Stopped);
    for packet in movie.clear_packet_queue() {
        decoded.push(packet.data);
    }
    let mut all: Vec<u32> = released.iter().chain(decoded.iter()).copied().collect();
    all.sort();
    let expected: Vec<u32> = (1..=next).collect();
    assert_eq!(all, expected);
    assert!(decoded.iter().all(|data| data % 2 == 1));
}
