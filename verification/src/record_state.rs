//! The recording sink: an encoder of its own that takes display-ready
//! pictures and writes them to a file, beside the playback and never in its
//! way.
//!
//! The sink is idle or recording. Opening the output and encoding are
//! outside work; what this module decides is when recording starts and
//! stops, which pictures are sent, and how one round of the encoder goes.

use crate::timing::Rational;
use vstd::prelude::*;

verus! {

/// How many pictures may wait between the player and the encoder.
pub const RECORD_CHANNEL_CAPACITY: usize = 3;

/// The width of a recording.
pub const RECORD_WIDTH: i32 = 1280;

/// The height of a recording.
pub const RECORD_HEIGHT: i32 = 720;

/// Whether the sink records.
#[derive(Clone, Copy, Debug, PartialEq, Eq, Structural)]
pub enum RecordStatus {
    Idle,
    Recording,
}

/// The recording sink of a player.
#[derive(Clone, Copy, Debug, PartialEq, Eq, Structural)]
pub struct RecordState {
    pub status: RecordStatus,
    /// Set once the output could not be opened: no further attempt is made
    /// in this session.
    pub disabled: bool,
    pub paused: bool,
}

/// What the encoder is set up with.
#[derive(Clone, Copy, Debug, PartialEq, Eq, Structural)]
pub struct EncoderSettings {
    /// Bits per second.
    pub bit_rate: i64,
    pub width: i32,
    pub height: i32,
    /// At most this many pictures between two that stand alone.
    pub gop_size: i32,
    pub max_b_frames: i32,
    /// The time base of the stream and of the encoder.
    pub time_base: Rational,
    pub framerate: Rational,
}

/// What to do on a request to start recording.
#[derive(Clone, Copy, Debug, PartialEq, Eq, Structural)]
pub enum StartDecision {
    /// Open the output with these settings and report how it went.
    Open { settings: EncoderSettings },
    /// The sink records already.
    AlreadyRecording,
    /// The output could not be opened before; recording stays off.
    Disabled,
}

/// What became of a picture offered to the encoder's channel.
#[derive(Clone, Copy, Debug, PartialEq, Eq, Structural)]
pub enum SendOutcome {
    Sent,
    /// The channel was full; the picture was not taken.
    Full,
    /// The encoder has gone; the picture was not taken.
    Closed,
}

/// How a round of the encoder goes on after a request for a compressed unit.
#[derive(Clone, Copy, Debug, PartialEq, Eq, Structural)]
pub enum EncodeNext {
    /// No unit came: the round is over.
    Stop,
    /// Write the unit to stream 0 and ask for another.
    WriteAndContinue,
    /// Write what the unit holds and end the round.
    WriteAndStop,
}

/// The settings of the encoder for pictures of the given size: 400 kbit/s,
/// 25 pictures a second, a stand-alone picture every ten at most and one
/// bidirectional picture at most between two others.
pub open spec fn spec_encoder_settings(width: i32, height: i32) -> EncoderSettings {
    EncoderSettings {
        bit_rate: 400_000,
        width,
        height,
        gop_size: 10,
        max_b_frames: 1,
        time_base: Rational { num: 1, den: 25 },
        framerate: Rational { num: 25, den: 1 },
    }
}

/// The settings of the encoder for pictures of the given size.
#[verifier::when_used_as_spec(spec_encoder_settings)]
pub fn encoder_settings(width: i32, height: i32) -> (settings: EncoderSettings)
    ensures
        settings == spec_encoder_settings(width, height),
{
    EncoderSettings {
        bit_rate: 400_000,
        width,
        height,
        gop_size: 10,
        max_b_frames: 1,
        time_base: Rational { num: 1, den: 25 },
        framerate: Rational { num: 25, den: 1 },
    }
}

impl RecordState {
    /// An idle sink.
    pub fn new() -> (sink: RecordState)
        ensures
            sink == (RecordState { status: RecordStatus::Idle, disabled: false, paused: false }),
    {
        RecordState { status: RecordStatus::Idle, disabled: false, paused: false }
    }

    /// Whether the sink records.
    pub open spec fn spec_is_recording(&self) -> bool {
        self.status == RecordStatus::Recording
    }

    /// Whether the sink records.
    #[verifier::when_used_as_spec(spec_is_recording)]
    pub fn is_recording(&self) -> (recording: bool)
        ensures
            recording == self.spec_is_recording(),
    {
        match self.status {
            RecordStatus::Recording => true,
            RecordStatus::Idle => false,
        }
    }

    /// Answers a request to start recording. An idle sink whose output never
    /// failed to open is told to open it; nothing changes until the attempt
    /// is reported with `opened`.
    pub fn start_recording_thread(&self) -> (decision: StartDecision)
        ensures
            decision == (if self.spec_is_recording() {
                StartDecision::AlreadyRecording
            } else if self.disabled {
                StartDecision::Disabled
            } else {
                StartDecision::Open { settings: spec_encoder_settings(RECORD_WIDTH, RECORD_HEIGHT) }
            }),
    {
        if self.is_recording() {
            StartDecision::AlreadyRecording
        } else if self.disabled {
            StartDecision::Disabled
        } else {
            StartDecision::Open { settings: encoder_settings(RECORD_WIDTH, RECORD_HEIGHT) }
        }
    }

    /// Takes the report of an attempt to open the output. A sink that was
    /// told to open it records when the attempt succeeded, and is disabled
    /// for the session when it failed; the failure is then to be reported,
    /// which the result asks for. On any other sink the report changes
    /// nothing.
    pub fn opened(&mut self, success: bool) -> (report_failure: bool)
        ensures
            *final(self) == (if old(self).spec_is_recording() || old(self).disabled {
                *old(self)
            } else if success {
                RecordState { status: RecordStatus::Recording, ..*old(self) }
            } else {
                RecordState { disabled: true, ..*old(self) }
            }),
            report_failure == (!success && !old(self).spec_is_recording() && !old(self).disabled),
    {
        if self.is_recording() || self.disabled {
            return false;
        }
        if success {
            self.status = RecordStatus::Recording;
            false
        } else {
            self.disabled = true;
            true
        }
    }

    /// Whether a display-ready picture is to be offered to the encoder: only
    /// while the sink records.
    pub fn wants_picture(&self) -> (wanted: bool)
        ensures
            wanted == self.spec_is_recording(),
    {
        self.is_recording()
    }

    /// Takes note of what became of a picture offered to the encoder.
    /// Recording is best effort: a picture that was not taken is lost and
    /// nothing else happens. The result says whether the picture is still
    /// the caller's to release.
    pub fn sent(&self, outcome: SendOutcome) -> (release: bool)
        ensures
            release == (outcome != SendOutcome::Sent),
    {
        match outcome {
            SendOutcome::Sent => false,
            _ => true,
        }
    }

    /// Stops recording. The result says whether there is an encoder to
    /// close: its channel is to be dropped, so that it drains what it holds
    /// and finishes the file, and its thread is to be joined.
    pub fn stop(&mut self) -> (close: bool)
        ensures
            *final(self) == (RecordState { status: RecordStatus::Idle, ..*old(self) }),
            close == old(self).spec_is_recording(),
    {
        let close = self.is_recording();
        self.status = RecordStatus::Idle;
        close
    }
}

/// Judges the encoder's response to a picture sent to it: after a negative
/// response no compressed unit is asked for.
pub fn picture_accepted(response: i32) -> (accepted: bool)
    ensures
        accepted == (response >= 0),
{
    response >= 0
}

/// Decides how a round of the encoder goes on after the response to a
/// request for a compressed unit. `again` and `end_of_stream` are the
/// responses by which the encoder says that it wants another picture or has
/// nothing left; either ends the round. After any other response the unit
/// is written to stream 0, and the round goes on unless the response was
/// negative.
pub fn encode_next(response: i32, again: i32, end_of_stream: i32) -> (next: EncodeNext)
    ensures
        next == (if response == again || response == end_of_stream {
            EncodeNext::Stop
        } else if response < 0 {
            EncodeNext::WriteAndStop
        } else {
            EncodeNext::WriteAndContinue
        }),
{
    if response == again || response == end_of_stream {
        EncodeNext::Stop
    } else if response < 0 {
        EncodeNext::WriteAndStop
    } else {
        EncodeNext::WriteAndContinue
    }
}

/// What is asked of a sink.
#[derive(Clone, Copy, Debug, PartialEq, Eq, Structural)]
pub enum RecordRequest {
    /// Start recording; the attempt to open the output succeeds or fails.
    Start { opens: bool },
    Stop,
}

/// The sink after a request.
pub open spec fn after_request(sink: RecordState, request: RecordRequest) -> RecordState {
    match request {
        RecordRequest::Start { opens } => {
            if sink.spec_is_recording() || sink.disabled {
                sink
            } else if opens {
                RecordState { status: RecordStatus::Recording, ..sink }
            } else {
                RecordState { disabled: true, ..sink }
            }
        },
        RecordRequest::Stop => RecordState { status: RecordStatus::Idle, ..sink },
    }
}

/// The sink after a run of requests, first to last.
pub open spec fn after_requests(sink: RecordState, requests: Seq<RecordRequest>) -> RecordState
    decreases requests.len(),
{
    if requests.len() == 0 {
        sink
    } else {
        after_request(after_requests(sink, requests.drop_last()), requests.last())
    }
}

/// A failure to open the output ends recording for the session: whatever is
/// asked of a disabled sink, it stays disabled and never records.
pub proof fn lemma_disabled_sink_never_records(sink: RecordState, requests: Seq<RecordRequest>)
    requires
        sink.disabled,
        !sink.spec_is_recording(),
    ensures
        after_requests(sink, requests).disabled,
        !after_requests(sink, requests).spec_is_recording(),
    decreases requests.len(),
{
    if requests.len() > 0 {
        lemma_disabled_sink_never_records(sink, requests.drop_last());
    }
}

/// A sink records only after its output was opened, and a sink that it was
/// never opened for has never recorded: whatever the requests, a sink that
/// began idle and records at the end has taken a start whose output
/// opened.
pub proof fn lemma_recording_needs_an_open_output(requests: Seq<RecordRequest>)
    requires
        after_requests(
            RecordState { status: RecordStatus::Idle, disabled: false, paused: false },
            requests,
        ).spec_is_recording(),
    ensures
        exists|i: int|
            0 <= i < requests.len() && #[trigger] requests[i] == (RecordRequest::Start {
                opens: true,
            }),
    decreases requests.len(),
{
    let idle = RecordState { status: RecordStatus::Idle, disabled: false, paused: false };
    if requests.len() > 0 {
        let earlier = requests.drop_last();
        if requests.last() == (RecordRequest::Start { opens: true }) {
            assert(requests[requests.len() - 1] == (RecordRequest::Start { opens: true }));
        } else {
            assert(after_requests(idle, earlier).spec_is_recording());
            lemma_recording_needs_an_open_output(earlier);
            let i = choose|i: int|
                0 <= i < earlier.len() && #[trigger] earlier[i] == (RecordRequest::Start {
                    opens: true,
                });
            assert(requests[i] == earlier[i]);
        }
    }
}

} // verus!
