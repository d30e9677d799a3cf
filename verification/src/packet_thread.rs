//! The packet reader of a source: what to do between one read of the demuxer
//! and the next.
//!
//! The reader's thread does the outside work: it reads, seeks, yields and
//! releases. After each piece of work it reports what happened and is told
//! here what to do next. An encoded unit that the reader has read is queued
//! on the source, kept for another try, or handed back for release, and
//! nothing else.

use crate::movie_state::MovieModel;
use crate::movie_state::MovieState;
use crate::movie_state::units;
use crate::movie_state::PacketWrapper;
use crate::movie_state::PACKET_QUEUE_CAPACITY;
use vstd::prelude::*;

verus! {

/// Where the reader stands between two pieces of outside work.
#[derive(Debug, PartialEq, Eq)]
pub enum ReaderState<D> {
    /// Nothing in hand: the next unit is to be read, or its read to be
    /// reported.
    Reading,
    /// A unit of the video stream found the queue full and waits for room.
    Waiting(PacketWrapper<D>),
    /// The input ended and a seek back to its start was asked for.
    Rewinding,
    /// The reader has ended.
    Stopped,
}

/// What the reader's thread reports.
#[derive(Debug, PartialEq, Eq)]
pub enum ReaderEvent<D> {
    /// The thread is at the head of its loop, or back from a yield.
    Resumed,
    /// A read has returned `response`; `packet` is the unit that was
    /// allocated for it, filled or not.
    Read { response: i32, packet: PacketWrapper<D> },
    /// A seek has returned `response`.
    Sought { response: i32 },
}

/// The outside work that the reader's thread is to do next.
#[derive(Clone, Copy, Debug, PartialEq, Eq, Structural)]
pub enum ReaderAction {
    /// Allocate a unit, read into it and report `Read`.
    Read,
    /// Seek the stream backward to `timestamp` and report `Sought`.
    Seek { stream_index: i64, timestamp: i64, backward: bool },
    /// Yield the processor and report `Resumed`.
    Yield,
    /// Leave the loop.
    Stop,
}

/// What one step of the reader decides.
#[derive(Debug, PartialEq, Eq)]
pub struct ReaderStep<D> {
    /// Where the reader stands now.
    pub state: ReaderState<D>,
    /// The outside work to do next.
    pub action: ReaderAction,
    /// A unit to release before that work, if any.
    pub release: Option<PacketWrapper<D>>,
    /// The new value of the flag that keeps the source's threads running.
    pub keep_running: bool,
}

/// The decision of a step, with the unit that the step queued on the source.
pub struct ReaderPlan<D> {
    pub state: ReaderState<D>,
    pub action: ReaderAction,
    pub release: Option<PacketWrapper<D>>,
    pub queued: Option<PacketWrapper<D>>,
    pub keep_running: bool,
}

/// The seek that rewinds a source: backward, to the start of its video
/// stream.
pub open spec fn rewind(video_stream_idx: i64) -> ReaderAction {
    ReaderAction::Seek { stream_index: video_stream_idx, timestamp: 0, backward: true }
}

/// What becomes of a unit of the video stream: it is queued when there is
/// room, and else kept for another try after a yield.
pub open spec fn offer<D>(packet: PacketWrapper<D>, queue_len: nat) -> ReaderPlan<D> {
    if queue_len < PACKET_QUEUE_CAPACITY {
        ReaderPlan {
            state: ReaderState::Reading,
            action: ReaderAction::Yield,
            release: None,
            queued: Some(packet),
            keep_running: true,
        }
    } else {
        ReaderPlan {
            state: ReaderState::Waiting(packet),
            action: ReaderAction::Yield,
            release: None,
            queued: None,
            keep_running: true,
        }
    }
}

/// The head of the loop: read on while the source runs, and stop when it
/// does not.
pub open spec fn proceed<D>(keep_running: bool, release: Option<PacketWrapper<D>>) -> ReaderPlan<
    D,
> {
    if keep_running {
        ReaderPlan {
            state: ReaderState::Reading,
            action: ReaderAction::Read,
            release,
            queued: None,
            keep_running,
        }
    } else {
        ReaderPlan {
            state: ReaderState::Stopped,
            action: ReaderAction::Stop,
            release,
            queued: None,
            keep_running,
        }
    }
}

/// The end of the reader, which takes the source's other threads with it.
pub open spec fn give_up<D>(release: Option<PacketWrapper<D>>) -> ReaderPlan<D> {
    ReaderPlan {
        state: ReaderState::Stopped,
        action: ReaderAction::Stop,
        release,
        queued: None,
        keep_running: false,
    }
}

/// What a report of a read leads to. At the end of the input the reader
/// rewinds in loop mode and gives up otherwise; a failed read makes it give
/// up; in each case the unit is released. A unit of the video stream is
/// offered to the queue, and a unit of any other stream is released.
pub open spec fn on_read<D>(
    response: i32,
    packet: PacketWrapper<D>,
    end_of_stream: i32,
    loop_mode: bool,
    video_stream_idx: i64,
    queue_len: nat,
) -> ReaderPlan<D> {
    if response == end_of_stream {
        if loop_mode {
            ReaderPlan {
                state: ReaderState::Rewinding,
                action: rewind(video_stream_idx),
                release: Some(packet),
                queued: None,
                keep_running: true,
            }
        } else {
            give_up(Some(packet))
        }
    } else if response < 0 {
        give_up(Some(packet))
    } else if packet.stream_index == video_stream_idx {
        offer(packet, queue_len)
    } else {
        ReaderPlan {
            state: ReaderState::Reading,
            action: ReaderAction::Yield,
            release: Some(packet),
            queued: None,
            keep_running: true,
        }
    }
}

/// The unit that an event brings with it.
pub open spec fn carried<D>(event: ReaderEvent<D>) -> Option<PacketWrapper<D>> {
    match event {
        ReaderEvent::Read { packet, .. } => Some(packet),
        _ => None,
    }
}

/// The unit that the reader has in hand.
pub open spec fn held<D>(state: ReaderState<D>) -> Option<PacketWrapper<D>> {
    match state {
        ReaderState::Waiting(packet) => Some(packet),
        _ => None,
    }
}

/// The whole decision table of the reader.
///
/// While the source runs: at the head of the loop the reader reads; a report
/// of a read is handled as `on_read` says; a waiting unit is offered to the
/// queue again after each yield; a seek that worked leads back to the head
/// of the loop and one that failed ends the reader. Once the source no
/// longer runs, the reader stops at the first report that fits its state,
/// and what it has in hand or is handed is released. A report that does
/// not fit the state changes nothing, and a unit that it brings is
/// released.
pub open spec fn reader_plan<D>(
    state: ReaderState<D>,
    event: ReaderEvent<D>,
    keep_running: bool,
    loop_mode: bool,
    end_of_stream: i32,
    video_stream_idx: i64,
    queue_len: nat,
) -> ReaderPlan<D> {
    match state {
        ReaderState::Stopped => ReaderPlan {
            state: ReaderState::Stopped,
            action: ReaderAction::Stop,
            release: carried(event),
            queued: None,
            keep_running,
        },
        ReaderState::Reading => match event {
            ReaderEvent::Read { response, packet } => if keep_running {
                on_read(response, packet, end_of_stream, loop_mode, video_stream_idx, queue_len)
            } else {
                proceed(keep_running, Some(packet))
            },
            _ => proceed(keep_running, None),
        },
        ReaderState::Waiting(waiting) => match event {
            ReaderEvent::Resumed => if keep_running {
                offer(waiting, queue_len)
            } else {
                proceed(keep_running, Some(waiting))
            },
            _ => ReaderPlan {
                state: ReaderState::Waiting(waiting),
                action: ReaderAction::Yield,
                release: carried(event),
                queued: None,
                keep_running,
            },
        },
        ReaderState::Rewinding => match event {
            ReaderEvent::Sought { response } => if response < 0 {
                give_up(None)
            } else {
                proceed(keep_running, None)
            },
            _ => ReaderPlan {
                state: ReaderState::Rewinding,
                action: rewind(video_stream_idx),
                release: carried(event),
                queued: None,
                keep_running,
            },
        },
    }
}

/// The packet queue after a step that queued `queued`.
pub open spec fn with_queued<D>(packets: Seq<PacketWrapper<D>>, queued: Option<PacketWrapper<D>>) -> Seq<
    PacketWrapper<D>,
> {
    match queued {
        Some(packet) => packets.push(packet),
        None => packets,
    }
}

/// One step of a source's packet reader: given where the reader stands and
/// what its thread reports, queues a unit on the source where the decision
/// table says so and tells the thread what to do next.
///
/// `keep_running` is the flag that the source's threads share, as the thread
/// has just read it; `end_of_stream` is the response by which the demuxer
/// reports the end of the input.
pub fn packet_thread_step<D, B>(
    state: ReaderState<D>,
    event: ReaderEvent<D>,
    keep_running: bool,
    loop_mode: bool,
    end_of_stream: i32,
    movie: &mut MovieState<D, B>,
) -> (step: ReaderStep<D>)
    ensures
        ({
            let plan = reader_plan(
                state,
                event,
                keep_running,
                loop_mode,
                end_of_stream,
                old(movie)@.video_stream_idx,
                old(movie)@.packets.len(),
            );
            &&& step.state == plan.state
            &&& step.action == plan.action
            &&& step.release == plan.release
            &&& step.keep_running == plan.keep_running
            &&& final(movie)@ == (MovieModel {
                packets: with_queued(old(movie)@.packets, plan.queued),
                ..old(movie)@
            })
        }),
{
    match state {
        ReaderState::Stopped => {
            let release = match event {
                ReaderEvent::Read { response, packet } => Some(packet),
                _ => None,
            };
            ReaderStep { state: ReaderState::Stopped, action: ReaderAction::Stop, release, keep_running }
        },
        ReaderState::Reading => match event {
            ReaderEvent::Read { response, packet } => {
                if !keep_running {
                    head_of_loop(keep_running, Some(packet))
                } else if response == end_of_stream {
                    if loop_mode {
                        ReaderStep {
                            state: ReaderState::Rewinding,
                            action: ReaderAction::Seek {
                                stream_index: movie.video_stream_idx,
                                timestamp: 0,
                                backward: true,
                            },
                            release: Some(packet),
                            keep_running: true,
                        }
                    } else {
                        ReaderStep {
                            state: ReaderState::Stopped,
                            action: ReaderAction::Stop,
                            release: Some(packet),
                            keep_running: false,
                        }
                    }
                } else if response < 0 {
                    ReaderStep {
                        state: ReaderState::Stopped,
                        action: ReaderAction::Stop,
                        release: Some(packet),
                        keep_running: false,
                    }
                } else if packet.stream_index as i64 == movie.video_stream_idx {
                    offer_to_queue(packet, movie)
                } else {
                    ReaderStep {
                        state: ReaderState::Reading,
                        action: ReaderAction::Yield,
                        release: Some(packet),
                        keep_running: true,
                    }
                }
            },
            _ => head_of_loop(keep_running, None),
        },
        ReaderState::Waiting(waiting) => match event {
            ReaderEvent::Resumed => {
                if keep_running {
                    offer_to_queue(waiting, movie)
                } else {
                    head_of_loop(keep_running, Some(waiting))
                }
            },
            ReaderEvent::Read { response, packet } => ReaderStep {
                state: ReaderState::Waiting(waiting),
                action: ReaderAction::Yield,
                release: Some(packet),
                keep_running,
            },
            ReaderEvent::Sought { response } => ReaderStep {
                state: ReaderState::Waiting(waiting),
                action: ReaderAction::Yield,
                release: None,
                keep_running,
            },
        },
        ReaderState::Rewinding => match event {
            ReaderEvent::Sought { response } => {
                if response < 0 {
                    ReaderStep {
                        state: ReaderState::Stopped,
                        action: ReaderAction::Stop,
                        release: None,
                        keep_running: false,
                    }
                } else {
                    head_of_loop(keep_running, None)
                }
            },
            ReaderEvent::Read { response, packet } => ReaderStep {
                state: ReaderState::Rewinding,
                action: ReaderAction::Seek {
                    stream_index: movie.video_stream_idx,
                    timestamp: 0,
                    backward: true,
                },
                release: Some(packet),
                keep_running,
            },
            ReaderEvent::Resumed => ReaderStep {
                state: ReaderState::Rewinding,
                action: ReaderAction::Seek {
                    stream_index: movie.video_stream_idx,
                    timestamp: 0,
                    backward: true,
                },
                release: None,
                keep_running,
            },
        },
    }
}

/// The step taken at the head of the loop.
fn head_of_loop<D>(keep_running: bool, release: Option<PacketWrapper<D>>) -> (step: ReaderStep<D>)
    ensures
        step.state == proceed(keep_running, release).state,
        step.action == proceed(keep_running, release).action,
        step.release == release,
        step.keep_running == keep_running,
{
    if keep_running {
        ReaderStep { state: ReaderState::Reading, action: ReaderAction::Read, release, keep_running }
    } else {
        ReaderStep { state: ReaderState::Stopped, action: ReaderAction::Stop, release, keep_running }
    }
}

/// Offers a unit of the video stream to the source's packet queue.
fn offer_to_queue<D, B>(packet: PacketWrapper<D>, movie: &mut MovieState<D, B>) -> (step:
    ReaderStep<D>)
    ensures
        ({
            let plan = offer(packet, old(movie)@.packets.len());
            &&& step.state == plan.state
            &&& step.action == plan.action
            &&& step.release == plan.release
            &&& step.keep_running == plan.keep_running
            &&& final(movie)@ == (MovieModel {
                packets: with_queued(old(movie)@.packets, plan.queued),
                ..old(movie)@
            })
        }),
{
    match movie.enqueue_packet(packet) {
        Ok(()) => ReaderStep {
            state: ReaderState::Reading,
            action: ReaderAction::Yield,
            release: None,
            keep_running: true,
        },
        Err(full) => ReaderStep {
            state: ReaderState::Waiting(full.item),
            action: ReaderAction::Yield,
            release: None,
            keep_running: true,
        },
    }
}

/// No step loses or doubles a unit: the unit that the reader had in hand and
/// the unit that the report brought are, together, exactly the unit that it
/// has in hand afterwards, the unit it queued and the unit it handed back
/// for release. So every unit that was read ends in the queue or is
/// released, once.
pub proof fn lemma_reader_accounts_for_every_unit<D>(
    state: ReaderState<D>,
    event: ReaderEvent<D>,
    keep_running: bool,
    loop_mode: bool,
    end_of_stream: i32,
    video_stream_idx: i64,
    queue_len: nat,
)
    ensures
        ({
            let plan = reader_plan(
                state,
                event,
                keep_running,
                loop_mode,
                end_of_stream,
                video_stream_idx,
                queue_len,
            );
            units(held(state)).add(units(carried(event))) == units(held(plan.state)).add(
                units(plan.queued),
            ).add(units(plan.release))
        }),
{
    let plan = reader_plan(
        state,
        event,
        keep_running,
        loop_mode,
        end_of_stream,
        video_stream_idx,
        queue_len,
    );
    assert(units(held(state)).add(units(carried(event))) =~= units(held(plan.state)).add(
        units(plan.queued),
    ).add(units(plan.release)));
}

/// Whether a report is one that the state waits for.
pub open spec fn fits<D>(state: ReaderState<D>, event: ReaderEvent<D>) -> bool {
    match state {
        ReaderState::Reading => true,
        ReaderState::Waiting(_) => event is Resumed,
        ReaderState::Rewinding => event is Sought,
        ReaderState::Stopped => true,
    }
}

/// No step restarts a source: the flag that keeps its threads running is
/// never set by the reader, only cleared. Once it is clear the reader queues
/// nothing more and stops at the first report that fits its state. The
/// reader is told to stop exactly when it reaches its stopped state, in
/// which it has nothing in hand and from which it never leaves.
pub proof fn lemma_reader_only_winds_down<D>(
    state: ReaderState<D>,
    event: ReaderEvent<D>,
    keep_running: bool,
    loop_mode: bool,
    end_of_stream: i32,
    video_stream_idx: i64,
    queue_len: nat,
)
    ensures
        ({
            let plan = reader_plan(
                state,
                event,
                keep_running,
                loop_mode,
                end_of_stream,
                video_stream_idx,
                queue_len,
            );
            &&& plan.keep_running ==> keep_running
            &&& !keep_running ==> plan.queued is None
            &&& (!keep_running && fits(state, event)) ==> plan.state is Stopped
            &&& plan.action == ReaderAction::Stop <==> plan.state is Stopped
            &&& plan.state is Stopped ==> held(plan.state) is None
            &&& state is Stopped ==> plan.state is Stopped
        }),
{
}

/// The end of the input is no failure in loop mode: the reader asks for a
/// seek back to the start of the video stream and the source keeps running.
/// Without loop mode it ends the reader and clears the flag that keeps the
/// source's threads running.
pub proof fn lemma_end_of_stream<D>(
    packet: PacketWrapper<D>,
    loop_mode: bool,
    end_of_stream: i32,
    video_stream_idx: i64,
    queue_len: nat,
)
    ensures
        ({
            let plan = reader_plan(
                ReaderState::Reading,
                ReaderEvent::Read { response: end_of_stream, packet },
                true,
                loop_mode,
                end_of_stream,
                video_stream_idx,
                queue_len,
            );
            &&& plan.release == Some(packet)
            &&& plan.queued is None
            &&& loop_mode ==> {
                &&& plan.keep_running
                &&& plan.state is Rewinding
                &&& plan.action == (ReaderAction::Seek {
                    stream_index: video_stream_idx,
                    timestamp: 0,
                    backward: true,
                })
            }
            &&& !loop_mode ==> {
                &&& !plan.keep_running
                &&& plan.state is Stopped
                &&& plan.action == ReaderAction::Stop
            }
        }),
{
}

} // verus!
