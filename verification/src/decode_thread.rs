//! The decoder of a source: what to do between one call of the decoder and
//! the next.
//!
//! The decoder's thread does the outside work: it feeds the decoder, sleeps,
//! releases and flushes. After each piece of work it reports what happened
//! and is told here what to do next. A unit taken from the packet queue
//! stays in the task's hands until the decoder has seen it and its picture,
//! if it gave one, is queued; then it is handed back for release, whatever
//! the decoder said.

use crate::movie_state::movie_state_enqueue_frame;
use crate::movie_state::FrameWrapper;
use crate::movie_state::MovieModel;
use crate::movie_state::MovieState;
use crate::movie_state::units;
use crate::movie_state::PacketWrapper;
use crate::movie_state::PICTURE_QUEUE_CAPACITY;
use vstd::prelude::*;

verus! {

/// How long the task sleeps, in microseconds, when no unit is queued.
pub const POLL_MICROS: u64 = 10;

/// How long the task sleeps, in microseconds, when the picture queue is
/// full. Longer than the reader's back-off, so that a full picture queue
/// slows the reader down too.
pub const BACKOFF_MICROS: u64 = 70_000;

/// Why a unit gave no picture.
#[derive(Clone, Copy, Debug, PartialEq, Eq, Structural)]
pub enum DecodeError {
    /// The decoder is in use elsewhere.
    Busy,
    /// The decoder did not take the unit.
    SendFailed,
    /// The decoder wants more input before it gives a picture.
    Again,
    /// The decoder failed to give a picture.
    ReceiveFailed,
}

impl DecodeError {
    /// The words for the error.
    pub open spec fn spec_message(&self) -> Seq<char> {
        match self {
            DecodeError::Busy => "Error while locking the codec context."@,
            DecodeError::SendFailed => "Error while sending a packet to the decoder."@,
            DecodeError::Again => "EAGAIN"@,
            DecodeError::ReceiveFailed => "Error while receiving a frame from the decoder."@,
        }
    }

    /// The words for the error.
    pub fn message(&self) -> (message: &'static str)
        ensures
            message@ == self.spec_message(),
    {
        match self {
            DecodeError::Busy => "Error while locking the codec context.",
            DecodeError::SendFailed => "Error while sending a packet to the decoder.",
            DecodeError::Again => "EAGAIN",
            DecodeError::ReceiveFailed => "Error while receiving a frame from the decoder.",
        }
    }

    /// Whether the error is part of normal decoding: the decoder was busy or
    /// wants more input. The other errors are worth a line in the log.
    pub fn is_retryable(&self) -> (retryable: bool)
        ensures
            retryable == (*self == DecodeError::Busy || *self == DecodeError::Again),
    {
        match self {
            DecodeError::Busy => true,
            DecodeError::Again => true,
            _ => false,
        }
    }
}

/// Judges an attempt to lock the decoder: a decoder that is in use elsewhere
/// is left alone on this round.
pub fn check_lock(locked: bool) -> (checked: Result<(), DecodeError>)
    ensures
        checked == (if locked {
            Ok::<(), DecodeError>(())
        } else {
            Err::<(), DecodeError>(DecodeError::Busy)
        }),
{
    if locked {
        Ok(())
    } else {
        Err(DecodeError::Busy)
    }
}

/// Judges the decoder's response to a unit sent to it: a negative response
/// is a failure, and no picture is asked for.
pub fn check_send(response: i32) -> (checked: Result<(), DecodeError>)
    ensures
        checked == (if response < 0 {
            Err::<(), DecodeError>(DecodeError::SendFailed)
        } else {
            Ok::<(), DecodeError>(())
        }),
{
    if response < 0 {
        Err(DecodeError::SendFailed)
    } else {
        Ok(())
    }
}

/// Judges the decoder's response to a request for a picture. `again` and
/// `end_of_stream` are the responses by which the decoder says that it
/// wants more input or has none left; either means no picture on this
/// round. Any other negative response is a failure.
pub fn check_receive(response: i32, again: i32, end_of_stream: i32) -> (checked: Result<
    (),
    DecodeError,
>)
    ensures
        checked == (if response == again || response == end_of_stream {
            Err::<(), DecodeError>(DecodeError::Again)
        } else if response < 0 {
            Err::<(), DecodeError>(DecodeError::ReceiveFailed)
        } else {
            Ok::<(), DecodeError>(())
        }),
{
    if response == again || response == end_of_stream {
        Err(DecodeError::Again)
    } else if response < 0 {
        Err(DecodeError::ReceiveFailed)
    } else {
        Ok(())
    }
}

/// Where the decode task stands between two pieces of outside work.
#[derive(Debug, PartialEq, Eq)]
pub enum DecodeState<D> {
    /// Nothing in hand: the next unit is to be taken from the packet queue.
    Fetching,
    /// A unit in hand that the decoder is to be fed, or is being fed.
    Decoding(PacketWrapper<D>),
    /// The unit in hand gave a picture that found the picture queue full and
    /// waits for room.
    Publishing(PacketWrapper<D>),
    /// The source no longer runs and the decoder is to be flushed.
    Flushing,
    /// The task has ended.
    Finished,
}

/// What the task's thread reports.
#[derive(Clone, Copy, Debug, PartialEq, Eq)]
pub enum DecodeEvent {
    /// The thread is at the head of its loop, or back from a sleep.
    Resumed,
    /// The decoder was fed the unit in hand, with this outcome. On `Ok` the
    /// picture is in the task's scratch picture.
    Decoded { outcome: Result<(), DecodeError> },
    /// The decoder was flushed.
    Flushed,
}

/// The outside work that the task's thread is to do next.
#[derive(Clone, Copy, Debug, PartialEq, Eq, Structural)]
pub enum DecodeAction {
    /// Sleep for `micros` microseconds and report `Resumed`.
    Sleep { micros: u64 },
    /// Feed the unit in hand to the decoder and report `Decoded`.
    Decode,
    /// Flush the decoder with an empty unit and report `Flushed`.
    Flush,
    /// Free the scratch picture and leave the loop.
    Exit,
}

/// What one step of the decode task decides.
#[derive(Debug, PartialEq, Eq)]
pub struct DecodeStep<D> {
    /// Where the task stands now.
    pub state: DecodeState<D>,
    /// The outside work to do next.
    pub action: DecodeAction,
    /// A unit to release before that work, if any.
    pub release: Option<PacketWrapper<D>>,
}

/// The decision of a step, with what the step did to the source's queues.
pub struct DecodePlan<D> {
    pub state: DecodeState<D>,
    pub action: DecodeAction,
    pub release: Option<PacketWrapper<D>>,
    /// Whether the oldest unit was taken from the packet queue.
    pub fetched: bool,
    /// Whether a copy of the scratch picture was queued.
    pub published: bool,
}

/// The head of the loop: a source that no longer runs has its decoder
/// flushed; else the oldest queued unit is taken and decoded, and when none
/// is queued the task sleeps for `POLL_MICROS`.
pub open spec fn fetch<D>(
    keep_running: bool,
    packets: Seq<PacketWrapper<D>>,
    release: Option<PacketWrapper<D>>,
    published: bool,
) -> DecodePlan<D> {
    if !keep_running {
        DecodePlan {
            state: DecodeState::Flushing,
            action: DecodeAction::Flush,
            release,
            fetched: false,
            published,
        }
    } else if packets.len() > 0 {
        DecodePlan {
            state: DecodeState::Decoding(packets[0]),
            action: DecodeAction::Decode,
            release,
            fetched: true,
            published,
        }
    } else {
        DecodePlan {
            state: DecodeState::Fetching,
            action: DecodeAction::Sleep { micros: POLL_MICROS },
            release,
            fetched: false,
            published,
        }
    }
}

/// What becomes of a decoded picture and the unit it came from: with room in
/// the picture queue a copy of the picture is queued, the unit is released
/// and the loop goes on; without room the unit stays in hand and the task
/// sleeps for `BACKOFF_MICROS` before it tries again.
pub open spec fn publish<D>(
    unit: PacketWrapper<D>,
    keep_running: bool,
    packets: Seq<PacketWrapper<D>>,
    pictures_len: nat,
) -> DecodePlan<D> {
    if pictures_len < PICTURE_QUEUE_CAPACITY {
        fetch(keep_running, packets, Some(unit), true)
    } else {
        DecodePlan {
            state: DecodeState::Publishing(unit),
            action: DecodeAction::Sleep { micros: BACKOFF_MICROS },
            release: None,
            fetched: false,
            published: false,
        }
    }
}

/// The whole decision table of the decode task.
///
/// A report of a decode with a picture publishes it; one without releases
/// the unit and goes on. A picture that waits for room is offered again
/// after each sleep while the source runs; once it no longer runs the
/// picture is given up and the unit released. A flushed decoder ends the
/// task. A report that does not fit the state repeats the work that the
/// state waits for.
pub open spec fn decode_plan<D>(
    state: DecodeState<D>,
    event: DecodeEvent,
    keep_running: bool,
    packets: Seq<PacketWrapper<D>>,
    pictures_len: nat,
) -> DecodePlan<D> {
    match state {
        DecodeState::Fetching => fetch(keep_running, packets, None, false),
        DecodeState::Decoding(unit) => match event {
            DecodeEvent::Decoded { outcome } => if outcome is Ok {
                publish(unit, keep_running, packets, pictures_len)
            } else {
                fetch(keep_running, packets, Some(unit), false)
            },
            _ => DecodePlan {
                state: DecodeState::Decoding(unit),
                action: DecodeAction::Decode,
                release: None,
                fetched: false,
                published: false,
            },
        },
        DecodeState::Publishing(unit) => match event {
            DecodeEvent::Resumed => if keep_running {
                publish(unit, keep_running, packets, pictures_len)
            } else {
                fetch(keep_running, packets, Some(unit), false)
            },
            _ => DecodePlan {
                state: DecodeState::Publishing(unit),
                action: DecodeAction::Sleep { micros: BACKOFF_MICROS },
                release: None,
                fetched: false,
                published: false,
            },
        },
        DecodeState::Flushing => match event {
            DecodeEvent::Flushed => DecodePlan {
                state: DecodeState::Finished,
                action: DecodeAction::Exit,
                release: None,
                fetched: false,
                published: false,
            },
            _ => DecodePlan {
                state: DecodeState::Flushing,
                action: DecodeAction::Flush,
                release: None,
                fetched: false,
                published: false,
            },
        },
        DecodeState::Finished => DecodePlan {
            state: DecodeState::Finished,
            action: DecodeAction::Exit,
            release: None,
            fetched: false,
            published: false,
        },
    }
}

/// Whether `after` is `before` with the oldest unit taken when `fetched`,
/// with a copy of `scratch` queued last when `published`, and nothing else
/// changed.
pub open spec fn queues_moved<D, B: Clone>(
    before: MovieModel<D, B>,
    after: MovieModel<D, B>,
    fetched: bool,
    published: bool,
    scratch: FrameWrapper<B>,
) -> bool {
    &&& after == (MovieModel { packets: after.packets, pictures: after.pictures, ..before })
    &&& after.packets == (if fetched {
        before.packets.skip(1)
    } else {
        before.packets
    })
    &&& if published {
        &&& after.pictures.len() == before.pictures.len() + 1
        &&& after.pictures.drop_last() == before.pictures
        &&& scratch.copied_to(after.pictures.last())
    } else {
        after.pictures == before.pictures
    }
}

/// One step of a source's decode task: given where the task stands and what
/// its thread reports, moves the source's queues as the decision table says
/// and tells the thread what to do next.
///
/// `keep_running` is the flag that the source's threads share, as the thread
/// has just read it. `scratch` is the picture that the decoder writes into;
/// the picture queue gets a copy of it.
pub fn decode_thread_step<D, B: Clone>(
    state: DecodeState<D>,
    event: DecodeEvent,
    keep_running: bool,
    movie: &mut MovieState<D, B>,
    scratch: &FrameWrapper<B>,
) -> (step: DecodeStep<D>)
    ensures
        ({
            let plan = decode_plan(
                state,
                event,
                keep_running,
                old(movie)@.packets,
                old(movie)@.pictures.len(),
            );
            &&& step.state == plan.state
            &&& step.action == plan.action
            &&& step.release == plan.release
            &&& queues_moved(old(movie)@, final(movie)@, plan.fetched, plan.published, *scratch)
        }),
{
    match state {
        DecodeState::Fetching => fetch_next(keep_running, movie, None),
        DecodeState::Decoding(unit) => match event {
            DecodeEvent::Decoded { outcome } => match outcome {
                Ok(()) => publish_picture(unit, keep_running, movie, scratch),
                Err(_) => fetch_next(keep_running, movie, Some(unit)),
            },
            _ => DecodeStep {
                state: DecodeState::Decoding(unit),
                action: DecodeAction::Decode,
                release: None,
            },
        },
        DecodeState::Publishing(unit) => match event {
            DecodeEvent::Resumed => {
                if keep_running {
                    publish_picture(unit, keep_running, movie, scratch)
                } else {
                    fetch_next(keep_running, movie, Some(unit))
                }
            },
            _ => DecodeStep {
                state: DecodeState::Publishing(unit),
                action: DecodeAction::Sleep { micros: BACKOFF_MICROS },
                release: None,
            },
        },
        DecodeState::Flushing => match event {
            DecodeEvent::Flushed => DecodeStep {
                state: DecodeState::Finished,
                action: DecodeAction::Exit,
                release: None,
            },
            _ => DecodeStep {
                state: DecodeState::Flushing,
                action: DecodeAction::Flush,
                release: None,
            },
        },
        DecodeState::Finished => DecodeStep {
            state: DecodeState::Finished,
            action: DecodeAction::Exit,
            release: None,
        },
    }
}

/// The step taken at the head of the loop.
fn fetch_next<D, B>(
    keep_running: bool,
    movie: &mut MovieState<D, B>,
    release: Option<PacketWrapper<D>>,
) -> (step: DecodeStep<D>)
    ensures
        ({
            let plan = fetch(keep_running, old(movie)@.packets, release, false);
            &&& step.state == plan.state
            &&& step.action == plan.action
            &&& step.release == plan.release
            &&& final(movie)@ == (MovieModel {
                packets: if plan.fetched {
                    old(movie)@.packets.skip(1)
                } else {
                    old(movie)@.packets
                },
                ..old(movie)@
            })
        }),
{
    if !keep_running {
        return DecodeStep { state: DecodeState::Flushing, action: DecodeAction::Flush, release };
    }
    match movie.dequeue_packet() {
        Some(unit) => {
            assert(movie@.packets =~= old(movie)@.packets.skip(1));
            DecodeStep { state: DecodeState::Decoding(unit), action: DecodeAction::Decode, release }
        },
        None => DecodeStep {
            state: DecodeState::Fetching,
            action: DecodeAction::Sleep { micros: POLL_MICROS },
            release,
        },
    }
}

/// Offers a copy of the scratch picture to the source's picture queue.
fn publish_picture<D, B: Clone>(
    unit: PacketWrapper<D>,
    keep_running: bool,
    movie: &mut MovieState<D, B>,
    scratch: &FrameWrapper<B>,
) -> (step: DecodeStep<D>)
    ensures
        ({
            let plan = publish(
                unit,
                keep_running,
                old(movie)@.packets,
                old(movie)@.pictures.len(),
            );
            &&& step.state == plan.state
            &&& step.action == plan.action
            &&& step.release == plan.release
            &&& queues_moved(old(movie)@, final(movie)@, plan.fetched, plan.published, *scratch)
        }),
{
    match movie_state_enqueue_frame(&mut movie.picq, scratch) {
        Ok(()) => fetch_next(keep_running, movie, Some(unit)),
        Err(()) => DecodeStep {
            state: DecodeState::Publishing(unit),
            action: DecodeAction::Sleep { micros: BACKOFF_MICROS },
            release: None,
        },
    }
}

/// The unit that the task has in hand.
pub open spec fn in_hand<D>(state: DecodeState<D>) -> Option<PacketWrapper<D>> {
    match state {
        DecodeState::Decoding(unit) => Some(unit),
        DecodeState::Publishing(unit) => Some(unit),
        _ => None,
    }
}

/// No step loses or doubles a unit: the unit that the task had in hand and
/// the unit that it took from the queue are, together, exactly the unit that
/// it has in hand afterwards and the unit it handed back for release. So
/// every unit taken from the queue is released, once.
pub proof fn lemma_decoder_accounts_for_every_unit<D>(
    state: DecodeState<D>,
    event: DecodeEvent,
    keep_running: bool,
    packets: Seq<PacketWrapper<D>>,
    pictures_len: nat,
)
    ensures
        ({
            let plan = decode_plan(state, event, keep_running, packets, pictures_len);
            let taken = if plan.fetched {
                Some(packets[0])
            } else {
                None
            };
            &&& plan.fetched ==> packets.len() > 0
            &&& units(in_hand(state)).add(units(taken)) == units(in_hand(plan.state)).add(
                units(plan.release),
            )
        }),
{
    let plan = decode_plan(state, event, keep_running, packets, pictures_len);
    let taken = if plan.fetched {
        Some(packets[0])
    } else {
        None
    };
    assert(units(in_hand(state)).add(units(taken)) =~= units(in_hand(plan.state)).add(
        units(plan.release),
    ));
}

/// A unit is released after the decoder has seen it, whatever the decoder
/// said: the report of a decode releases the unit in hand, unless the
/// picture it gave still waits for room; and a picture that waits is given
/// up, and its unit released, as soon as the source no longer runs.
pub proof fn lemma_decoded_unit_is_released<D>(
    unit: PacketWrapper<D>,
    outcome: Result<(), DecodeError>,
    keep_running: bool,
    packets: Seq<PacketWrapper<D>>,
    pictures_len: nat,
)
    ensures
        ({
            let plan = decode_plan(
                DecodeState::Decoding(unit),
                DecodeEvent::Decoded { outcome },
                keep_running,
                packets,
                pictures_len,
            );
            let kept = outcome is Ok && pictures_len >= PICTURE_QUEUE_CAPACITY;
            &&& kept ==> plan.state == DecodeState::Publishing(unit) && plan.release is None
            &&& !kept ==> plan.release == Some(unit)
            &&& plan.published <==> outcome is Ok && pictures_len < PICTURE_QUEUE_CAPACITY
        }),
        ({
            let plan = decode_plan(
                DecodeState::Publishing(unit),
                DecodeEvent::Resumed,
                false,
                packets,
                pictures_len,
            );
            &&& plan.release == Some(unit)
            &&& !plan.published
            &&& plan.action == DecodeAction::Flush
        }),
{
}

/// The task ends in order: it leaves its loop only after the decoder was
/// flushed, it flushes only once the source no longer runs or while it
/// waits for the flush, and once the source no longer
/// runs it takes no further unit from the queue.
pub proof fn lemma_decoder_ends_in_order<D>(
    state: DecodeState<D>,
    event: DecodeEvent,
    keep_running: bool,
    packets: Seq<PacketWrapper<D>>,
    pictures_len: nat,
)
    ensures
        ({
            let plan = decode_plan(state, event, keep_running, packets, pictures_len);
            &&& plan.action == DecodeAction::Exit <==> plan.state is Finished
            &&& plan.state is Finished ==> state is Finished || (state is Flushing && event
                == DecodeEvent::Flushed)
            &&& plan.action == DecodeAction::Flush <==> plan.state is Flushing
            &&& plan.state is Flushing ==> !keep_running || state is Flushing
            &&& !keep_running ==> !plan.fetched
            &&& !keep_running ==> !plan.published || state is Decoding
        }),
{
}

} // verus!
