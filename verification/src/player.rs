//! The control side of the player: the commands it takes, the threads it
//! keeps track of, and the choice of the stream that a source plays.

use crate::analyzer_state::stepped;
use crate::analyzer_state::toggled;
use crate::analyzer_state::AnalyzerContext;
use crate::analyzer_state::AnalyzerModel;
use crate::movie_state::MovieModel;
use crate::record_state::spec_encoder_settings;
use crate::record_state::EncoderSettings;
use crate::record_state::RecordState;
use crate::record_state::RecordStatus;
use crate::record_state::StartDecision;
use crate::record_state::RECORD_HEIGHT;
use crate::record_state::RECORD_WIDTH;
use vstd::prelude::*;

verus! {

/// A command on the player's control channel.
#[derive(Clone, Copy, Debug, PartialEq, Eq, Structural)]
pub enum Command {
    Pause,
    Step,
    StartRecording,
    StopRecording,
    Quit,
}

/// The command that a message stands for, if any.
pub open spec fn spec_parse(message: Seq<char>) -> Option<Command> {
    if message == "pause"@ {
        Some(Command::Pause)
    } else if message == "step"@ {
        Some(Command::Step)
    } else if message == "Start recording"@ {
        Some(Command::StartRecording)
    } else if message == "Stop recording"@ {
        Some(Command::StopRecording)
    } else if message == "quit"@ {
        Some(Command::Quit)
    } else {
        None
    }
}

/// Whether two texts are the same, character by character.
fn same_text(a: &str, b: &str) -> (same: bool)
    ensures
        same == (a@ == b@),
{
    let left: String = a.to_owned();
    let right: String = b.to_owned();
    left == right
}

impl Command {
    /// The message that stands for the command.
    pub open spec fn spec_text(&self) -> Seq<char> {
        match self {
            Command::Pause => "pause"@,
            Command::Step => "step"@,
            Command::StartRecording => "Start recording"@,
            Command::StopRecording => "Stop recording"@,
            Command::Quit => "quit"@,
        }
    }

    /// The message that stands for the command.
    pub fn text(&self) -> (text: &'static str)
        ensures
            text@ == self.spec_text(),
    {
        match self {
            Command::Pause => "pause",
            Command::Step => "step",
            Command::StartRecording => "Start recording",
            Command::StopRecording => "Stop recording",
            Command::Quit => "quit",
        }
    }

    /// The command that `message` stands for; `None` for any other text.
    pub fn parse(message: &str) -> (command: Option<Command>)
        ensures
            command == spec_parse(message@),
    {
        if same_text(message, "pause") {
            Some(Command::Pause)
        } else if same_text(message, "step") {
            Some(Command::Step)
        } else if same_text(message, "Start recording") {
            Some(Command::StartRecording)
        } else if same_text(message, "Stop recording") {
            Some(Command::StopRecording)
        } else if same_text(message, "quit") {
            Some(Command::Quit)
        } else {
            None
        }
    }
}

/// Every command is read back from its own message.
pub proof fn lemma_command_text_is_parsed_back(command: Command)
    ensures
        spec_parse(command.spec_text()) == Some(command),
{
    reveal_strlit("pause");
    reveal_strlit("step");
    reveal_strlit("Start recording");
    reveal_strlit("Stop recording");
    reveal_strlit("quit");
    assert("pause"@.len() == 5);
    assert("step"@.len() == 4);
    assert("Start recording"@.len() == 15);
    assert("Stop recording"@.len() == 14);
    assert("quit"@.len() == 4);
    assert("step"@[0] == 's');
    assert("quit"@[0] == 'q');
}

/// Whether the control loop goes on listening after it received `message`,
/// or found its channel closed: it ends on `quit` and when every sender is
/// gone, and on nothing else.
pub fn keeps_listening(message: Option<&str>) -> (listening: bool)
    ensures
        listening == (message matches Some(text) && text@ != "quit"@),
{
    match message {
        Some(text) => !same_text(text, "quit"),
        None => false,
    }
}

/// What is left to the caller after a command was taken.
#[derive(Clone, Copy, Debug, PartialEq, Eq, Structural)]
pub enum ControlAction {
    /// Nothing.
    Continue,
    /// Open the recording's output with these settings and report to the
    /// sink how it went.
    OpenRecording { settings: EncoderSettings },
    /// Close the recording's encoder.
    CloseRecording,
    /// Stop every thread and close the player.
    Shutdown,
}

/// The player and the sink after a command.
pub open spec fn after_command<D, B>(
    analyzer: AnalyzerModel<D, B>,
    sink: RecordState,
    command: Command,
) -> (AnalyzerModel<D, B>, RecordState, ControlAction) {
    match command {
        Command::Pause => (
            AnalyzerModel {
                movies: analyzer.movies.map_values(|movie: MovieModel<D, B>| toggled(movie)),
                paused: !analyzer.paused,
                ..analyzer
            },
            sink,
            ControlAction::Continue,
        ),
        Command::Step => (
            if analyzer.paused {
                AnalyzerModel {
                    movies: analyzer.movies.map_values(|movie: MovieModel<D, B>| stepped(movie)),
                    force_render: true,
                    ..analyzer
                }
            } else {
                analyzer
            },
            sink,
            ControlAction::Continue,
        ),
        Command::StartRecording => (
            analyzer,
            sink,
            if sink.spec_is_recording() || sink.disabled {
                ControlAction::Continue
            } else {
                ControlAction::OpenRecording {
                    settings: spec_encoder_settings(RECORD_WIDTH, RECORD_HEIGHT),
                }
            },
        ),
        Command::StopRecording => (
            analyzer,
            RecordState { status: RecordStatus::Idle, ..sink },
            if sink.spec_is_recording() {
                ControlAction::CloseRecording
            } else {
                ControlAction::Continue
            },
        ),
        Command::Quit => (analyzer, sink, ControlAction::Shutdown),
    }
}

/// Takes one command: pauses or steps the player, starts or stops the
/// recording, or asks for the shutdown.
pub fn dispatch<D, B>(
    analyzer: &mut AnalyzerContext<D, B>,
    sink: &mut RecordState,
    command: Command,
) -> (action: ControlAction)
    ensures
        (final(analyzer)@, *final(sink), action) == after_command(
            old(analyzer)@,
            *old(sink),
            command,
        ),
{
    match command {
        Command::Pause => {
            analyzer.pause();
            ControlAction::Continue
        },
        Command::Step => {
            analyzer.step();
            ControlAction::Continue
        },
        Command::StartRecording => match sink.start_recording_thread() {
            StartDecision::Open { settings } => ControlAction::OpenRecording { settings },
            _ => ControlAction::Continue,
        },
        Command::StopRecording => {
            if sink.stop() {
                ControlAction::CloseRecording
            } else {
                ControlAction::Continue
            }
        },
        Command::Quit => ControlAction::Shutdown,
    }
}

/// The threads of the player's sources: for each source a reader and a
/// decoder, kept until the shutdown joins them.
pub struct Supervisor<H> {
    packet_threads: Vec<H>,
    decode_threads: Vec<H>,
}

/// The mathematical model of the supervisor: the handles of the readers and
/// of the decoders, each in the order in which the sources were started.
pub struct Supervised<H> {
    pub readers: Seq<H>,
    pub decoders: Seq<H>,
}

impl<H> View for Supervisor<H> {
    type V = Supervised<H>;

    closed spec fn view(&self) -> Supervised<H> {
        Supervised { readers: self.packet_threads@, decoders: self.decode_threads@ }
    }
}

impl<H> Supervisor<H> {
    /// A supervisor of no thread.
    pub fn new() -> (supervisor: Supervisor<H>)
        ensures
            supervisor@ == (Supervised::<H> { readers: Seq::empty(), decoders: Seq::empty() }),
    {
        Supervisor { packet_threads: Vec::new(), decode_threads: Vec::new() }
    }

    /// Takes charge of the two threads of a source that was just started.
    pub fn register(&mut self, reader: H, decoder: H)
        ensures
            final(self)@ == (Supervised {
                readers: old(self)@.readers.push(reader),
                decoders: old(self)@.decoders.push(decoder),
            }),
    {
        self.packet_threads.push(reader);
        self.decode_threads.push(decoder);
    }

    /// The number of sources whose threads are kept.
    pub fn sources(&self) -> (count: usize)
        ensures
            count == self@.readers.len(),
    {
        self.packet_threads.len()
    }

    /// Hands out every thread for joining and keeps none: first the
    /// decoders, then the readers, each from the source started last to the
    /// source started first. The flag that keeps the threads running has to
    /// be cleared, and the parked ones woken, before the first join.
    pub fn shutdown(&mut self) -> (joins: Vec<H>)
        ensures
            final(self)@ == (Supervised::<H> { readers: Seq::empty(), decoders: Seq::empty() }),
            joins@ == old(self)@.decoders.reverse() + old(self)@.readers.reverse(),
    {
        let mut joins: Vec<H> = Vec::new();
        loop
            invariant
                self.packet_threads@ == old(self).packet_threads@,
                self.decode_threads@.len() + joins@.len() == old(self).decode_threads@.len(),
                self.decode_threads@ == old(self).decode_threads@.take(
                    self.decode_threads@.len() as int,
                ),
                joins@ == old(self).decode_threads@.skip(
                    self.decode_threads@.len() as int,
                ).reverse(),
            ensures
                self.decode_threads@.len() == 0,
            decreases self.decode_threads@.len(),
        {
            match self.decode_threads.pop() {
                Some(handle) => {
                    joins.push(handle);
                    assert(joins@ =~= old(self).decode_threads@.skip(
                        self.decode_threads@.len() as int,
                    ).reverse());
                },
                None => {
                    break ;
                },
            }
        }
        assert(old(self).decode_threads@.skip(0) =~= old(self).decode_threads@);
        let ghost decoders = joins@;
        loop
            invariant
                self.decode_threads@.len() == 0,
                decoders == old(self).decode_threads@.reverse(),
                self.packet_threads@.len() <= old(self).packet_threads@.len(),
                self.packet_threads@ == old(self).packet_threads@.take(
                    self.packet_threads@.len() as int,
                ),
                joins@ == decoders + old(self).packet_threads@.skip(
                    self.packet_threads@.len() as int,
                ).reverse(),
            ensures
                self.packet_threads@.len() == 0,
            decreases self.packet_threads@.len(),
        {
            match self.packet_threads.pop() {
                Some(handle) => {
                    joins.push(handle);
                    assert(joins@ =~= decoders + old(self).packet_threads@.skip(
                        self.packet_threads@.len() as int,
                    ).reverse());
                },
                None => {
                    break ;
                },
            }
        }
        assert(old(self).packet_threads@.skip(0) =~= old(self).packet_threads@);
        assert(self@.readers =~= Seq::empty());
        assert(self@.decoders =~= Seq::empty());
        joins
    }
}

/// What a stream of an input carries.
#[derive(Clone, Copy, Debug, PartialEq, Eq, Structural)]
pub enum MediaKind {
    Video,
    Audio,
    Other,
}

/// The stream that a source plays: the first video stream of its input.
/// `None` when the input has no video stream.
pub fn select_video_stream(kinds: &Vec<MediaKind>) -> (chosen: Option<usize>)
    ensures
        match chosen {
            Some(index) => {
                &&& index < kinds@.len()
                &&& kinds@[index as int] == MediaKind::Video
                &&& forall|i: int| 0 <= i < index ==> kinds@[i] != MediaKind::Video
            },
            None => forall|i: int| 0 <= i < kinds@.len() ==> kinds@[i] != MediaKind::Video,
        },
{
    let mut index: usize = 0;
    while index < kinds.len()
        invariant
            index <= kinds@.len(),
            forall|i: int| 0 <= i < index ==> kinds@[i] != MediaKind::Video,
        decreases kinds@.len() - index,
    {
        if kinds[index] == MediaKind::Video {
            return Some(index);
        }
        index += 1;
    }
    None
}

} // verus!
