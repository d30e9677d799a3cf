//! The life of an encoded unit, from the read that brings it to its release.
//!
//! The reader and the decoder of a source run side by side on one packet
//! queue. This module models every way in which their steps can follow one
//! another and shows that, however they do, no unit is lost and none is
//! released twice.

use crate::decode_thread::decode_plan;
use crate::decode_thread::in_hand;
use crate::decode_thread::lemma_decoder_accounts_for_every_unit;
use crate::decode_thread::DecodeEvent;
use crate::decode_thread::DecodeState;
use crate::movie_state::units;
use crate::movie_state::PacketWrapper;
use crate::packet_thread::carried;
use crate::packet_thread::held;
use crate::packet_thread::lemma_reader_accounts_for_every_unit;
use crate::packet_thread::reader_plan;
use crate::packet_thread::with_queued;
use crate::packet_thread::ReaderEvent;
use crate::packet_thread::ReaderState;
use vstd::multiset::lemma_multiset_empty_len;
use vstd::multiset::Multiset;
use vstd::prelude::*;
use vstd::seq_lib::lemma_multiset_commutative;
use vstd::seq_lib::to_multiset_build;
use vstd::seq_lib::to_multiset_len;

verus! {

/// A source's reader, decoder and packet queue, with a record of the units
/// that reads have brought and of those handed back for release.
pub struct Pipeline<D> {
    pub reader: ReaderState<D>,
    pub decoder: DecodeState<D>,
    /// The packet queue, oldest unit first.
    pub packets: Seq<PacketWrapper<D>>,
    /// Every unit that a read has brought.
    pub read: Multiset<PacketWrapper<D>>,
    /// Every unit that was handed back for release.
    pub released: Multiset<PacketWrapper<D>>,
    /// Every unit that the reader has queued, in the order of the queuing.
    pub queued: Seq<PacketWrapper<D>>,
    /// Every unit that the decoder has taken, in the order of the taking.
    pub fetched: Seq<PacketWrapper<D>>,
}

/// One move of the pipeline.
pub enum Move<D> {
    /// A step of the reader, with what its thread reported and saw.
    Reader {
        event: ReaderEvent<D>,
        keep_running: bool,
        loop_mode: bool,
        end_of_stream: i32,
        video_stream_idx: i64,
    },
    /// A step of the decoder, with what its thread reported and saw, and
    /// the number of pictures that were queued at the time.
    Decoder { report: DecodeEvent, keep_running: bool, pictures_len: nat },
    /// The packet queue is drained and what it held is released, oldest
    /// unit first.
    Drain,
}

/// A pipeline that has done nothing yet.
pub open spec fn fresh<D>() -> Pipeline<D> {
    Pipeline {
        reader: ReaderState::Reading,
        decoder: DecodeState::Fetching,
        packets: Seq::empty(),
        read: Multiset::empty(),
        released: Multiset::empty(),
        queued: Seq::empty(),
        fetched: Seq::empty(),
    }
}

/// The pipeline after a move.
pub open spec fn after_move<D>(pipeline: Pipeline<D>, step: Move<D>) -> Pipeline<D> {
    match step {
        Move::Reader { event, keep_running, loop_mode, end_of_stream, video_stream_idx } => {
            let plan = reader_plan(
                pipeline.reader,
                event,
                keep_running,
                loop_mode,
                end_of_stream,
                video_stream_idx,
                pipeline.packets.len(),
            );
            Pipeline {
                reader: plan.state,
                packets: with_queued(pipeline.packets, plan.queued),
                read: pipeline.read.add(units(carried(event))),
                released: pipeline.released.add(units(plan.release)),
                queued: with_queued(pipeline.queued, plan.queued),
                ..pipeline
            }
        },
        Move::Decoder { report, keep_running, pictures_len } => {
            let plan = decode_plan(
                pipeline.decoder,
                report,
                keep_running,
                pipeline.packets,
                pictures_len,
            );
            Pipeline {
                decoder: plan.state,
                packets: if plan.fetched {
                    pipeline.packets.skip(1)
                } else {
                    pipeline.packets
                },
                released: pipeline.released.add(units(plan.release)),
                fetched: if plan.fetched {
                    pipeline.fetched.push(pipeline.packets[0])
                } else {
                    pipeline.fetched
                },
                ..pipeline
            }
        },
        Move::Drain => Pipeline {
            packets: Seq::empty(),
            released: pipeline.released.add(pipeline.packets.to_multiset()),
            fetched: pipeline.fetched + pipeline.packets,
            ..pipeline
        },
    }
}

/// The pipeline after a run of moves, first to last.
pub open spec fn after_moves<D>(pipeline: Pipeline<D>, moves: Seq<Move<D>>) -> Pipeline<D>
    decreases moves.len(),
{
    if moves.len() == 0 {
        pipeline
    } else {
        after_move(after_moves(pipeline, moves.drop_last()), moves.last())
    }
}

/// The units that the pipeline still holds: in the reader's hand, in the
/// packet queue and in the decoder's hand.
pub open spec fn in_flight<D>(pipeline: Pipeline<D>) -> Multiset<PacketWrapper<D>> {
    units(held(pipeline.reader)).add(pipeline.packets.to_multiset()).add(
        units(in_hand(pipeline.decoder)),
    )
}

/// Whether every unit that was read is either released or still in flight,
/// each as often as it was read.
pub open spec fn accounted<D>(pipeline: Pipeline<D>) -> bool {
    pipeline.read == pipeline.released.add(in_flight(pipeline))
}

/// An empty queue holds no unit.
proof fn lemma_empty_queue_holds_nothing<D>(packets: Seq<PacketWrapper<D>>)
    requires
        packets.len() == 0,
    ensures
        packets.to_multiset() == Multiset::<PacketWrapper<D>>::empty(),
{
    to_multiset_len(packets);
    lemma_multiset_empty_len(packets.to_multiset());
    assert(packets.to_multiset() =~= Multiset::<PacketWrapper<D>>::empty());
}

/// No move loses or doubles a unit.
pub proof fn lemma_move_keeps_account<D>(pipeline: Pipeline<D>, step: Move<D>)
    requires
        accounted(pipeline),
    ensures
        accounted(after_move(pipeline, step)),
{
    let after = after_move(pipeline, step);
    match step {
        Move::Reader { event, keep_running, loop_mode, end_of_stream, video_stream_idx } => {
            let plan = reader_plan(
                pipeline.reader,
                event,
                keep_running,
                loop_mode,
                end_of_stream,
                video_stream_idx,
                pipeline.packets.len(),
            );
            lemma_reader_accounts_for_every_unit(
                pipeline.reader,
                event,
                keep_running,
                loop_mode,
                end_of_stream,
                video_stream_idx,
                pipeline.packets.len(),
            );
            match plan.queued {
                Some(packet) => {
                    to_multiset_build(pipeline.packets, packet);
                },
                None => {},
            }
            assert(after.packets.to_multiset() =~= pipeline.packets.to_multiset().add(
                units(plan.queued),
            ));
            assert(after.read =~= after.released.add(in_flight(after)));
        },
        Move::Decoder { report, keep_running, pictures_len } => {
            let plan = decode_plan(
                pipeline.decoder,
                report,
                keep_running,
                pipeline.packets,
                pictures_len,
            );
            lemma_decoder_accounts_for_every_unit(
                pipeline.decoder,
                report,
                keep_running,
                pipeline.packets,
                pictures_len,
            );
            let taken = if plan.fetched {
                Some(pipeline.packets[0])
            } else {
                None
            };
            if plan.fetched {
                let first = seq![pipeline.packets[0]];
                assert(pipeline.packets =~= first + pipeline.packets.skip(1));
                lemma_multiset_commutative(first, pipeline.packets.skip(1));
                to_multiset_build(Seq::<PacketWrapper<D>>::empty(), pipeline.packets[0]);
                assert(first =~= Seq::<PacketWrapper<D>>::empty().push(pipeline.packets[0]));
                lemma_empty_queue_holds_nothing(Seq::<PacketWrapper<D>>::empty());
                assert(first.to_multiset() =~= Multiset::singleton(pipeline.packets[0]));
            }
            assert(pipeline.packets.to_multiset() =~= after.packets.to_multiset().add(
                units(taken),
            ));
            assert(after.read =~= after.released.add(in_flight(after)));
        },
        Move::Drain => {
            lemma_empty_queue_holds_nothing(after.packets);
            assert(after.read =~= after.released.add(in_flight(after)));
        },
    }
}

/// However the steps of reader and decoder follow one another, every unit
/// that was read is released or still in flight, each as often as it was
/// read: none is lost, and none is released twice.
pub proof fn lemma_every_unit_is_accounted_for<D>(moves: Seq<Move<D>>)
    ensures
        accounted(after_moves(fresh::<D>(), moves)),
    decreases moves.len(),
{
    if moves.len() == 0 {
        lemma_empty_queue_holds_nothing(fresh::<D>().packets);
        assert(fresh::<D>().read =~= fresh::<D>().released.add(in_flight(fresh::<D>())));
    } else {
        lemma_every_unit_is_accounted_for(moves.drop_last());
        lemma_move_keeps_account(after_moves(fresh::<D>(), moves.drop_last()), moves.last());
    }
}

/// After the shutdown, every unit has been released exactly once: once the
/// reader has stopped, the decoder has nothing left in hand and the packet
/// queue is drained, the units released are the units read, each as often
/// as it was read, whichever way each of them went.
pub proof fn lemma_every_unit_is_released_once<D>(moves: Seq<Move<D>>)
    requires
        after_moves(fresh::<D>(), moves).reader is Stopped,
        in_hand(after_moves(fresh::<D>(), moves).decoder) is None,
        after_moves(fresh::<D>(), moves).packets.len() == 0,
    ensures
        after_moves(fresh::<D>(), moves).released == after_moves(fresh::<D>(), moves).read,
{
    let last = after_moves(fresh::<D>(), moves);
    lemma_every_unit_is_accounted_for(moves);
    lemma_empty_queue_holds_nothing(last.packets);
    assert(last.released =~= last.released.add(in_flight(last)));
}

/// Units leave the packet queue in the order in which they entered it: at
/// every moment the units queued so far are the units taken so far, by the
/// decoder or by a drain, followed by the units still queued. The decoder
/// therefore sees the units of the video stream in the order in which they
/// were read, and none out of turn.
pub proof fn lemma_units_are_decoded_in_read_order<D>(moves: Seq<Move<D>>)
    ensures
        after_moves(fresh::<D>(), moves).queued == after_moves(fresh::<D>(), moves).fetched
            + after_moves(fresh::<D>(), moves).packets,
    decreases moves.len(),
{
    let last = after_moves(fresh::<D>(), moves);
    if moves.len() == 0 {
        assert(last.queued =~= last.fetched + last.packets);
    } else {
        let before = after_moves(fresh::<D>(), moves.drop_last());
        lemma_units_are_decoded_in_read_order(moves.drop_last());
        assert(before.queued == before.fetched + before.packets);
        match moves.last() {
            Move::Decoder { report, keep_running, pictures_len } => {
                lemma_decoder_accounts_for_every_unit(
                    before.decoder,
                    report,
                    keep_running,
                    before.packets,
                    pictures_len,
                );
            },
            _ => {},
        }
        assert(last.queued =~= last.fetched + last.packets);
    }
}

} // verus!
