use rsplayer::analyzer_state::AnalyzerContext;
use rsplayer::analyzer_state::Decision;
use rsplayer::decode_thread::decode_thread_step;
use rsplayer::decode_thread::DecodeAction;
use rsplayer::decode_thread::DecodeEvent;
use rsplayer::decode_thread::DecodeState;
use rsplayer::movie_state::Drained;
use rsplayer::movie_state::FrameWrapper;
use rsplayer::movie_state::MovieState;
use rsplayer::movie_state::PacketWrapper;
use rsplayer::packet_thread::packet_thread_step;
use rsplayer::packet_thread::ReaderAction;
use rsplayer::packet_thread::ReaderEvent;
use rsplayer::packet_thread::ReaderState;
use rsplayer::player::Supervisor;
use rsplayer::timing::Rational;
use rsplayer::timing::TimeBase;

const EOF: i32 = -541_478_725;

/// One source with its two tasks, driven by hand.
struct Rig {
    reader: ReaderState<u32>,
    reader_event: ReaderEvent<u32>,
    decoder: DecodeState<u32>,
    decoder_event: DecodeEvent,
    next_unit: u32,
    units_in_input: u32,
    released: Vec<u32>,
    reader_done: bool,
    decoder_done: bool,
}

impl Rig {
    fn new(units_in_input: u32) -> Rig {
        Rig {
            reader: ReaderState::Reading,
            reader_event: ReaderEvent::Resumed,
            decoder: DecodeState::Fetching,
            decoder_event: DecodeEvent::Resumed,
            next_unit: 0,
            units_in_input,
            released: Vec::new(),
            reader_done: false,
            decoder_done: false,
        }
    }

    fn step_reader(&mut self, movie: &mut MovieState<u32, u32>, keep_running: &mut bool, loop_mode: bool) {
        if self.reader_done {
            return;
        }
        let state = std::mem::replace(&mut self.reader, ReaderState::Stopped);
        let event = std::mem::replace(&mut self.reader_event, ReaderEvent::Resumed);
        let step = packet_thread_step(state, event, *keep_running, loop_mode, EOF, movie);
        if !step.keep_running {
            *keep_running = false;
        }
        if let Some(unit) = step.release {
            self.released.push(unit.data);
        }
        self.reader = step.state;
        self.reader_event = match step.action {
            ReaderAction::Read => {
                self.next_unit += 1;
                let response = if self.next_unit > self.units_in_input { EOF } else { 0 };
                ReaderEvent::Read {
                    response,
                    packet: PacketWrapper {
                        pts: self.next_unit as i64,
                        stream_index: (self.next_unit % 3 == 0) as i32,
                        data: self.next_unit,
                    },
                }
            }
            ReaderAction::Seek { .. } => ReaderEvent::Sought { response: 0 },
            ReaderAction::Yield => ReaderEvent::Resumed,
            ReaderAction::Stop => {
                self.reader_done = true;
                ReaderEvent::Resumed
            }
        };
    }

    fn step_decoder(&mut self, movie: &mut MovieState<u32, u32>, keep_running: bool) {
        if self.decoder_done {
            return;
        }
        let state = std::mem::replace(&mut self.decoder, DecodeState::Finished);
        let unit = match &state {
            DecodeState::Decoding(unit) => unit.pts,
            _ => 0,
        };
        let scratch = FrameWrapper { pts: unit, width: 2, height: 2, format: 0, buffer: unit as u32 };
        let step = decode_thread_step(state, self.decoder_event, keep_running, movie, &scratch);
        if let Some(unit) = step.release {
            self.released.push(unit.data);
        }
        self.decoder = step.state;
        self.decoder_event = match step.action {
            DecodeAction::Decode => DecodeEvent::Decoded { outcome: Ok(()) },
            DecodeAction::Flush => DecodeEvent::Flushed,
            DecodeAction::Sleep { .. } => DecodeEvent::Resumed,
            DecodeAction::Exit => {
                self.decoder_done = true;
                DecodeEvent::Resumed
            }
        };
    }
}

fn playing_source() -> AnalyzerContext<u32, u32> {
    let mut analyzer = AnalyzerContext::new();
    let mut movie = MovieState::new();
    movie.set_video_stream(0, TimeBase::new(1, 25).unwrap(), Rational { num: 25, den: 1 });
    analyzer.add_movie_state(movie);
    analyzer.pause();
    analyzer
}

#[test]
fn shutdown_drains_queues() {
    let mut analyzer = playing_source();
    let mut rig = Rig::new(u32::MAX);
    let mut keep_running = true;
    for _ in 0..200 {
        rig.step_reader(&mut analyzer.movie_list[0], &mut keep_running, true);
        rig.step_decoder(&mut analyzer.movie_list[0], keep_running);
    }
    assert!(keep_running);
    assert_eq!(analyzer.movie_list[0].videoqueue.len(), 10);
    assert_eq!(analyzer.movie_list[0].picq.len(), 4);

    keep_running = false;
    for _ in 0..10 {
        rig.step_reader(&mut analyzer.movie_list[0], &mut keep_running, true);
        rig.step_decoder(&mut analyzer.movie_list[0], keep_running);
    }
    assert!(rig.reader_done);
    assert!(rig.decoder_done);
    assert_eq!(rig.reader, ReaderState::Stopped);
    assert_eq!(rig.decoder, DecodeState::Finished);

    let mut supervisor: Supervisor<u32> = Supervisor::new();
    supervisor.register(1, 2);
    assert_eq!(supervisor.shutdown(), vec![2, 1]);

    let drained = analyzer.movie_list[0].drain_queues();
    assert_eq!(drained.packets.len(), 10);
    assert_eq!(drained.pictures.len(), 4);
    assert!(analyzer.movie_list[0].videoqueue.is_empty());
    assert!(analyzer.movie_list[0].picq.is_empty());
    rig.released.extend(drained.packets.iter().map(|unit| unit.data));

    // Every unit that the reader read was released once.
    let mut released = rig.released.clone();
    released.sort();
    let expected: Vec<u32> = (1..=rig.next_unit).collect();
    assert_eq!(released, expected);

    assert_eq!(analyzer.close(), vec![Drained { packets: vec![], pictures: vec![] }]);
    assert_eq!(analyzer.movie_count(), 0);
}

#[test]
fn input_that_ends_stops_the_pipeline_without_loop_mode() {
    let mut analyzer = playing_source();
    let mut rig = Rig::new(7);
    let mut keep_running = true;
    let mut shown: Vec<i64> = Vec::new();
    for round in 0..400i64 {
        rig.step_reader(&mut analyzer.movie_list[0], &mut keep_running, false);
        rig.step_decoder(&mut analyzer.movie_list[0], keep_running);
        let tick = analyzer.dequeue_frame(0, 1_000_000 + round * 40_000);
        assert!(tick.dropped.is_empty());
        if let Decision::Ready { picture, .. } = tick.decision {
            shown.push(picture.pts);
        }
    }
    assert!(!keep_running);
    assert!(rig.reader_done);
    assert!(rig.decoder_done);
    assert_eq!(rig.next_unit, 8);
    let mut released = rig.released.clone();
    released.extend(analyzer.movie_list[0].clear_packet_queue().iter().map(|unit| unit.data));
    released.sort();
    assert_eq!(released, vec![1, 2, 3, 4, 5, 6, 7, 8]);
    // Units 3 and 6 belong to another stream; the others were decoded and
    // shown in the order in which they were read, as far as the decoder got
    // before the source stopped.
    assert!(!shown.is_empty());
    assert!(shown.windows(2).all(|pair| pair[0] < pair[1]));
    assert!(shown.iter().all(|pts| [1, 2, 4, 5, 7].contains(pts)));
}

#[test]
fn input_that_ends_is_rewound_in_loop_mode() {
    let mut analyzer = playing_source();
    let mut rig = Rig::new(2);
    let mut keep_running = true;
    let mut rewinds = 0;
    for _ in 0..12 {
        rig.step_reader(&mut analyzer.movie_list[0], &mut keep_running, true);
        if rig.reader == ReaderState::Rewinding {
            rewinds += 1;
        }
        analyzer.movie_list[0].clear_packet_queue();
    }
    assert!(keep_running);
    assert!(!rig.reader_done);
    assert!(rewinds >= 1);
}
