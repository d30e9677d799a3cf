use rsplayer::analyzer_state::AnalyzerContext;
use rsplayer::movie_state::MovieState;
use rsplayer::player::dispatch;
use rsplayer::player::keeps_listening;
use rsplayer::player::select_video_stream;
use rsplayer::player::Command;
use rsplayer::player::ControlAction;
use rsplayer::player::MediaKind;
use rsplayer::player::Supervisor;
use rsplayer::platform::sdl::event_loop;
use rsplayer::platform::sdl::plane_layout;
use rsplayer::platform::sdl::yuv_conversion_mode;
use rsplayer::platform::sdl::ColorCodes;
use rsplayer::platform::sdl::ColorInfo;
use rsplayer::platform::sdl::InputEvent;
use rsplayer::platform::sdl::PlaneLayout;
use rsplayer::platform::sdl::Reaction;
use rsplayer::platform::sdl::YuvConversionMode;
use rsplayer::record_state::encoder_settings;
use rsplayer::record_state::RecordState;
use rsplayer::timing::NO_PTS;

const COMMANDS: [Command; 5] = [
    Command::Pause,
    Command::Step,
    Command::StartRecording,
    Command::StopRecording,
    Command::Quit,
];

const CODES: ColorCodes = ColorCodes {
    yuv420p: 0,
    yuv422p: 4,
    uyvy422: 15,
    range_jpeg: 2,
    bt709: 1,
    bt470bg: 5,
    smpte170m: 6,
};

#[test]
fn commands_have_their_messages() {
    assert_eq!(Command::Pause.text(), "pause");
    assert_eq!(Command::Step.text(), "step");
    assert_eq!(Command::StartRecording.text(), "Start recording");
    assert_eq!(Command::StopRecording.text(), "Stop recording");
    assert_eq!(Command::Quit.text(), "quit");
}

#[test]
fn every_command_is_parsed_back_from_its_message() {
    for command in COMMANDS {
        assert_eq!(Command::parse(command.text()), Some(command));
    }
}

#[test]
fn other_messages_are_no_commands() {
    for message in ["", "unpause", "Quit", "quit ", "start recording", "pause\n", "stepp"] {
        assert_eq!(Command::parse(message), None);
    }
}

#[test]
fn control_loop_ends_on_quit_or_a_closed_channel() {
    assert!(keeps_listening(Some("pause")));
    assert!(keeps_listening(Some("unpause")));
    assert!(keeps_listening(Some("")));
    assert!(keeps_listening(Some("QUIT")));
    assert!(!keeps_listening(Some("quit")));
    assert!(!keeps_listening(None));
}

#[test]
fn dispatch_pauses_and_steps_the_player() {
    let mut analyzer: AnalyzerContext<u32, u32> = AnalyzerContext::new();
    let mut sink = RecordState::new();
    let mut movie = MovieState::new();
    movie.last_pts = 4;
    analyzer.add_movie_state(movie);
    assert_eq!(dispatch(&mut analyzer, &mut sink, Command::Step), ControlAction::Continue);
    assert!(analyzer.movie_list[0].step);
    assert!(analyzer.force_render);
    assert_eq!(dispatch(&mut analyzer, &mut sink, Command::Pause), ControlAction::Continue);
    assert!(!analyzer.is_paused());
    assert!(!analyzer.movie_list[0].is_paused());
    assert_eq!(analyzer.movie_list[0].last_pts, NO_PTS);
    assert_eq!(sink, RecordState::new());
}

#[test]
fn dispatch_starts_and_stops_the_recording() {
    let mut analyzer: AnalyzerContext<u32, u32> = AnalyzerContext::new();
    let mut sink = RecordState::new();
    assert_eq!(dispatch(&mut analyzer, &mut sink, Command::StopRecording), ControlAction::Continue);
    assert_eq!(
        dispatch(&mut analyzer, &mut sink, Command::StartRecording),
        ControlAction::OpenRecording { settings: encoder_settings(1280, 720) }
    );
    assert!(!sink.opened(true));
    assert_eq!(dispatch(&mut analyzer, &mut sink, Command::StartRecording), ControlAction::Continue);
    assert_eq!(
        dispatch(&mut analyzer, &mut sink, Command::StopRecording),
        ControlAction::CloseRecording
    );
    assert!(!sink.is_recording());
    assert_eq!(dispatch(&mut analyzer, &mut sink, Command::Quit), ControlAction::Shutdown);
    assert!(analyzer.is_paused());
}

#[test]
fn supervisor_joins_decoders_then_readers_newest_first() {
    let mut supervisor: Supervisor<&'static str> = Supervisor::new();
    assert_eq!(supervisor.sources(), 0);
    assert!(supervisor.shutdown().is_empty());
    supervisor.register("reader 0", "decoder 0");
    supervisor.register("reader 1", "decoder 1");
    supervisor.register("reader 2", "decoder 2");
    assert_eq!(supervisor.sources(), 3);
    assert_eq!(
        supervisor.shutdown(),
        vec!["decoder 2", "decoder 1", "decoder 0", "reader 2", "reader 1", "reader 0"]
    );
    assert_eq!(supervisor.sources(), 0);
    assert!(supervisor.shutdown().is_empty());
}

#[test]
fn first_video_stream_is_chosen() {
    assert_eq!(select_video_stream(&vec![]), None);
    assert_eq!(select_video_stream(&vec![MediaKind::Audio, MediaKind::Other]), None);
    assert_eq!(select_video_stream(&vec![MediaKind::Video]), Some(0));
    assert_eq!(
        select_video_stream(&vec![MediaKind::Audio, MediaKind::Video, MediaKind::Video]),
        Some(1)
    );
    assert_eq!(
        select_video_stream(&vec![MediaKind::Other, MediaKind::Audio, MediaKind::Video]),
        Some(2)
    );
}

#[test]
fn input_events_become_commands() {
    for recording in [false, true] {
        let quit = Reaction { command: Some(Command::Quit), leave: true };
        assert_eq!(event_loop(InputEvent::Quit, recording), quit);
        assert_eq!(event_loop(InputEvent::KeyEscape, recording), quit);
        assert_eq!(event_loop(InputEvent::KeyQ, recording), quit);
        assert_eq!(
            event_loop(InputEvent::KeySpace, recording),
            Reaction { command: Some(Command::Pause), leave: false }
        );
        assert_eq!(
            event_loop(InputEvent::KeyPeriod, recording),
            Reaction { command: Some(Command::Step), leave: false }
        );
        assert_eq!(
            event_loop(InputEvent::Other, recording),
            Reaction { command: None, leave: false }
        );
    }
    assert_eq!(
        event_loop(InputEvent::KeyR, false),
        Reaction { command: Some(Command::StartRecording), leave: false }
    );
    assert_eq!(
        event_loop(InputEvent::KeyR, true),
        Reaction { command: Some(Command::StopRecording), leave: false }
    );
}

#[test]
fn conversion_mode_follows_range_and_standard() {
    let info = |format, color_range, colorspace| Some(ColorInfo { format, color_range, colorspace });
    assert_eq!(yuv_conversion_mode(None, &CODES), YuvConversionMode::Automatic);
    assert_eq!(yuv_conversion_mode(info(0, 2, 1), &CODES), YuvConversionMode::Jpeg);
    assert_eq!(yuv_conversion_mode(info(4, 2, 5), &CODES), YuvConversionMode::Jpeg);
    assert_eq!(yuv_conversion_mode(info(0, 1, 1), &CODES), YuvConversionMode::Bt709);
    assert_eq!(yuv_conversion_mode(info(15, 0, 5), &CODES), YuvConversionMode::Bt601);
    assert_eq!(yuv_conversion_mode(info(4, 1, 6), &CODES), YuvConversionMode::Bt601);
    assert_eq!(yuv_conversion_mode(info(0, 1, 9), &CODES), YuvConversionMode::Automatic);
    assert_eq!(yuv_conversion_mode(info(2, 2, 1), &CODES), YuvConversionMode::Automatic);
    assert_eq!(yuv_conversion_mode(info(-1, 2, 1), &CODES), YuvConversionMode::Automatic);
}

#[test]
fn planes_of_a_packed_picture() {
    assert_eq!(
        plane_layout(1280, 720),
        PlaneLayout { luma_size: 921_600, chroma_size: 230_400, second_chroma: 1_152_000, total: 1_382_400 }
    );
    assert_eq!(
        plane_layout(5, 3),
        PlaneLayout { luma_size: 15, chroma_size: 2, second_chroma: 17, total: 22 }
    );
    assert_eq!(
        plane_layout(0, 7),
        PlaneLayout { luma_size: 0, chroma_size: 0, second_chroma: 0, total: 0 }
    );
    let largest = plane_layout(u32::MAX, u32::MAX);
    assert_eq!(largest.luma_size, 18_446_744_065_119_617_025);
    assert_eq!(largest.total, 27_670_116_097_679_425_537);
    assert!(largest.second_chroma + largest.chroma_size <= largest.total);
}
