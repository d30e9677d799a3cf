//! One media source: its packet queue, its picture queue and the bookkeeping
//! that the presentation scheduler keeps for it.

use crate::filter::FilterSettings;
use crate::filter::RotateFilter;
use crate::queue::after_pop;
use crate::queue::after_push;
use crate::queue::BoundedQueue;
use crate::queue::Full;
use crate::timing::MediaTime;
use crate::timing::Rational;
use crate::timing::TimeBase;
use crate::timing::NO_PTS;
use vstd::multiset::Multiset;
use vstd::prelude::*;

verus! {

/// How many encoded units a source queues between reading and decoding.
pub const PACKET_QUEUE_CAPACITY: usize = 10;

/// How many decoded pictures a source queues between decoding and display.
pub const PICTURE_QUEUE_CAPACITY: usize = 4;

/// The rotation that a source's filter chain is built for.
pub const DEFAULT_ROTATION: i32 = 0;

/// An encoded unit as the demuxer delivers it: the timestamp and stream that
/// the pipeline reads, and the payload that it only carries.
#[derive(Debug, PartialEq, Eq)]
pub struct PacketWrapper<D> {
    /// Presentation timestamp, in units of the stream's time base.
    pub pts: i64,
    /// The stream of the input that the unit belongs to.
    pub stream_index: i32,
    /// The encoded bytes, or the handle that stands for them.
    pub data: D,
}

/// The encoded units in an optional unit: one or none.
pub open spec fn units<D>(unit: Option<PacketWrapper<D>>) -> Multiset<PacketWrapper<D>> {
    match unit {
        Some(packet) => Multiset::singleton(packet),
        None => Multiset::empty(),
    }
}

/// A decoded picture: the timestamp, geometry and pixel format that the
/// pipeline reads, and the pixel buffer that it only carries.
#[derive(Debug, PartialEq, Eq)]
pub struct FrameWrapper<B> {
    /// Presentation timestamp, in units of the stream's time base.
    pub pts: i64,
    pub width: i32,
    pub height: i32,
    /// The pixel format, as the decoder numbers it.
    pub format: i32,
    /// The pixels, or the handle that stands for them.
    pub buffer: B,
}

impl<B> FrameWrapper<B> {
    /// Whether `copy` is a copy of this picture: the same timestamp, geometry
    /// and format, and a buffer cloned from this one.
    pub open spec fn copied_to(&self, copy: FrameWrapper<B>) -> bool where B: Clone {
        &&& copy.pts == self.pts
        &&& copy.width == self.width
        &&& copy.height == self.height
        &&& copy.format == self.format
        &&& cloned(self.buffer, copy.buffer)
    }

    /// A copy of the picture that owns a clone of the buffer.
    pub fn duplicate(&self) -> (copy: FrameWrapper<B>) where B: Clone
        ensures
            self.copied_to(copy),
    {
        FrameWrapper {
            pts: self.pts,
            width: self.width,
            height: self.height,
            format: self.format,
            buffer: self.buffer.clone(),
        }
    }

    /// The settings of a filter chain that takes this picture.
    pub open spec fn spec_filter_settings(&self, rotation: i32) -> FilterSettings {
        FilterSettings { rotation, width: self.width, height: self.height, format: self.format }
    }

    /// The settings of a filter chain that takes this picture and turns it
    /// by `rotation` degrees.
    #[verifier::when_used_as_spec(spec_filter_settings)]
    pub fn filter_settings(&self, rotation: i32) -> (settings: FilterSettings)
        ensures
            settings == self.spec_filter_settings(rotation),
    {
        FilterSettings { rotation, width: self.width, height: self.height, format: self.format }
    }
}

/// One media source.
pub struct MovieState<D, B> {
    /// The input stream whose units are decoded; negative while none is chosen.
    pub video_stream_idx: i64,
    /// The input's audio stream; carried, never decoded.
    pub audio_stream_idx: i64,
    /// Encoded units between the reader and the decoder.
    pub videoqueue: BoundedQueue<PacketWrapper<D>, PACKET_QUEUE_CAPACITY>,
    /// Decoded pictures between the decoder and the scheduler.
    pub picq: BoundedQueue<FrameWrapper<B>, PICTURE_QUEUE_CAPACITY>,
    pub paused: bool,
    /// The ends of the filter chain that exist.
    pub filter: RotateFilter,
    /// The frame rate that the input declares.
    pub video_frame_rate: Rational,
    /// The time base of the video stream's timestamps.
    pub time_base: TimeBase,
    /// Timestamp of the picture shown last, `NO_PTS` while there is none.
    pub last_pts: i64,
    /// Media time of the picture shown last.
    pub last_pts_time: MediaTime,
    /// Wall-clock instant, in microseconds, at which a picture was shown last.
    pub last_display_time: i64,
    /// A request to show one picture although the source is paused.
    pub step: bool,
}

/// The mathematical model of a source: its two queues as sequences, oldest
/// first, and its bookkeeping as plain values.
pub struct MovieModel<D, B> {
    pub video_stream_idx: i64,
    pub audio_stream_idx: i64,
    pub packets: Seq<PacketWrapper<D>>,
    pub pictures: Seq<FrameWrapper<B>>,
    pub paused: bool,
    pub filter: RotateFilter,
    pub video_frame_rate: Rational,
    pub time_base: TimeBase,
    pub last_pts: i64,
    pub last_pts_time: int,
    pub last_display_time: i64,
    pub step: bool,
}

impl<D, B> View for MovieState<D, B> {
    type V = MovieModel<D, B>;

    open spec fn view(&self) -> MovieModel<D, B> {
        MovieModel {
            video_stream_idx: self.video_stream_idx,
            audio_stream_idx: self.audio_stream_idx,
            packets: self.videoqueue@,
            pictures: self.picq@,
            paused: self.paused,
            filter: self.filter,
            video_frame_rate: self.video_frame_rate,
            time_base: self.time_base,
            last_pts: self.last_pts,
            last_pts_time: self.last_pts_time@,
            last_display_time: self.last_display_time,
            step: self.step,
        }
    }
}

/// What a source's queues held when they were drained, oldest first, for the
/// caller to release.
#[derive(Debug, PartialEq, Eq)]
pub struct Drained<D, B> {
    pub packets: Vec<PacketWrapper<D>>,
    pub pictures: Vec<FrameWrapper<B>>,
}

/// A picture taken from a source, and the filter chain to build for it first
/// when the source has none.
#[derive(Debug, PartialEq, Eq)]
pub struct Presented<B> {
    pub picture: FrameWrapper<B>,
    pub build: Option<FilterSettings>,
}

impl<D, B> MovieModel<D, B> {
    /// A source that has done nothing yet: nothing queued, playing, no stream
    /// chosen, a declared rate of sixty frames a second, nothing shown.
    pub open spec fn fresh(time_base: TimeBase) -> MovieModel<D, B> {
        MovieModel {
            video_stream_idx: -1i64,
            audio_stream_idx: -1i64,
            packets: Seq::empty(),
            pictures: Seq::empty(),
            paused: false,
            filter: RotateFilter { buffersink_set: false, buffersrc_set: false },
            video_frame_rate: Rational { num: 1, den: 60 },
            time_base,
            last_pts: NO_PTS,
            last_pts_time: 0,
            last_display_time: 0,
            step: false,
        }
    }

    /// Whether a call of `dequeue_frame_raw` hands out a picture: one is
    /// queued, and the source plays or has a step pending.
    pub open spec fn hands_out(self) -> bool {
        (self.step || !self.paused) && self.pictures.len() > 0
    }

    /// The filter chain to build before a picture passes: `Some` while the
    /// chain has a missing end, with the picture's geometry and format.
    pub open spec fn build_for(self, picture: FrameWrapper<B>) -> Option<FilterSettings> {
        if self.filter.spec_is_unset() {
            Some(picture.spec_filter_settings(DEFAULT_ROTATION))
        } else {
            None
        }
    }
}

impl<D, B> MovieState<D, B> {
    /// A source with nothing queued, playing, with no stream chosen, a
    /// declared rate of sixty frames a second and timestamps in seconds.
    pub fn new() -> (movie: MovieState<D, B>)
        ensures
            movie@ == MovieModel::<D, B>::fresh(movie.time_base),
            movie.time_base.spec_num() == 1,
            movie.time_base.spec_den() == 1,
    {
        MovieState {
            video_stream_idx: -1,
            audio_stream_idx: -1,
            videoqueue: BoundedQueue::new(),
            picq: BoundedQueue::new(),
            paused: false,
            filter: RotateFilter::new(),
            video_frame_rate: Rational { num: 1, den: 60 },
            time_base: TimeBase::seconds(),
            last_pts: NO_PTS,
            last_pts_time: MediaTime::zero(),
            last_display_time: 0,
            step: false,
        }
    }

    /// Chooses the video stream: its index in the input, the time base of
    /// its timestamps and the frame rate it declares.
    pub fn set_video_stream(&mut self, index: i64, time_base: TimeBase, frame_rate: Rational)
        ensures
            final(self)@ == (MovieModel {
                video_stream_idx: index,
                time_base,
                video_frame_rate: frame_rate,
                ..old(self)@
            }),
    {
        self.video_stream_idx = index;
        self.time_base = time_base;
        self.video_frame_rate = frame_rate;
    }

    /// Queues an encoded unit for decoding. When ten are queued already the
    /// source is left as it was and the unit comes back inside the error.
    pub fn enqueue_packet(&mut self, packet: PacketWrapper<D>) -> (queued: Result<
        (),
        Full<PacketWrapper<D>>,
    >)
        ensures
            final(self)@ == (MovieModel {
                packets: after_push(old(self)@.packets, PACKET_QUEUE_CAPACITY as nat, packet),
                ..old(self)@
            }),
            queued is Ok <==> old(self)@.packets.len() < PACKET_QUEUE_CAPACITY,
            queued matches Err(full) ==> full.item == packet,
    {
        self.videoqueue.push(packet)
    }

    /// Empties the packet queue and returns what it held, oldest first, for
    /// the caller to release.
    pub fn clear_packet_queue(&mut self) -> (released: Vec<PacketWrapper<D>>)
        ensures
            final(self)@ == (MovieModel { packets: Seq::empty(), ..old(self)@ }),
            released@ == old(self)@.packets,
    {
        self.videoqueue.drain()
    }

    /// Removes and returns the oldest queued encoded unit.
    pub fn dequeue_packet(&mut self) -> (packet: Option<PacketWrapper<D>>)
        ensures
            final(self)@ == (MovieModel { packets: after_pop(old(self)@.packets), ..old(self)@ }),
            packet == (if old(self)@.packets.len() > 0 {
                Some(old(self)@.packets[0])
            } else {
                None
            }),
    {
        self.videoqueue.pop_front()
    }

    /// Queues a decoded picture for display. When four are queued already
    /// the source is left as it was and the picture comes back inside the
    /// error.
    pub fn enqueue_frame(&mut self, frame: FrameWrapper<B>) -> (queued: Result<
        (),
        Full<FrameWrapper<B>>,
    >)
        ensures
            final(self)@ == (MovieModel {
                pictures: after_push(old(self)@.pictures, PICTURE_QUEUE_CAPACITY as nat, frame),
                ..old(self)@
            }),
            queued is Ok <==> old(self)@.pictures.len() < PICTURE_QUEUE_CAPACITY,
            queued matches Err(full) ==> full.item == frame,
    {
        self.picq.push(frame)
    }

    /// Removes and returns the oldest queued picture, whatever the clock
    /// says.
    pub fn dequeue_frame(&mut self) -> (frame: Option<FrameWrapper<B>>)
        ensures
            final(self)@ == (MovieModel {
                pictures: after_pop(old(self)@.pictures),
                ..old(self)@
            }),
            frame == (if old(self)@.pictures.len() > 0 {
                Some(old(self)@.pictures[0])
            } else {
                None
            }),
    {
        self.picq.pop_front()
    }

    /// Takes the oldest queued picture for display without pacing it: a
    /// playing source hands out a picture whenever one is queued, a paused
    /// one only on a pending step, which the call uses up. With the picture
    /// comes the filter chain to build first, when the source has none.
    pub fn dequeue_frame_raw(&mut self) -> (presented: Option<Presented<B>>)
        ensures
            final(self)@ == (MovieModel {
                step: false,
                pictures: if old(self)@.hands_out() {
                    after_pop(old(self)@.pictures)
                } else {
                    old(self)@.pictures
                },
                ..old(self)@
            }),
            presented == (if old(self)@.hands_out() {
                Some(
                    Presented {
                        picture: old(self)@.pictures[0],
                        build: old(self)@.build_for(old(self)@.pictures[0]),
                    },
                )
            } else {
                None
            }),
    {
        if !self.step && self.paused {
            return None;
        }
        if self.step {
            self.step = false;
        }
        match self.picq.pop_front() {
            None => None,
            Some(picture) => {
                let build = if self.filter.is_unset() {
                    Some(picture.filter_settings(DEFAULT_ROTATION))
                } else {
                    None
                };
                Some(Presented { picture, build })
            },
        }
    }

    /// The timestamp of the oldest queued picture, left in place.
    pub fn peek_frame_pts(&self) -> (pts: Option<i64>)
        ensures
            pts == (if self@.pictures.len() > 0 {
                Some(self@.pictures[0].pts)
            } else {
                None
            }),
    {
        match self.picq.peek_front() {
            Some(front) => Some(front.pts),
            None => None,
        }
    }

    /// Toggles between paused and playing, and forgets the picture shown
    /// last: the next one is paced as a first picture.
    pub fn pause(&mut self)
        ensures
            final(self)@ == (MovieModel {
                paused: !old(self)@.paused,
                last_pts: NO_PTS,
                ..old(self)@
            }),
    {
        self.paused = !self.paused;
        self.last_pts = NO_PTS;
    }

    /// Whether the source is paused.
    pub fn is_paused(&self) -> (paused: bool)
        ensures
            paused == self@.paused,
    {
        self.paused
    }

    /// Asks a paused source for one picture. A playing source ignores it.
    pub fn step(&mut self)
        ensures
            final(self)@ == (MovieModel {
                step: old(self)@.step || old(self)@.paused,
                ..old(self)@
            }),
    {
        if !self.paused {
            return ;
        }
        self.step = true;
    }

    /// Asks for one picture, paused or not.
    pub fn step_force(&mut self)
        ensures
            final(self)@ == (MovieModel { step: true, ..old(self)@ }),
    {
        self.step = true;
    }

    /// Sets the media time of the picture shown last to that of `pts` in the
    /// source's time base.
    pub fn update_last_pts_time(&mut self, pts: i64)
        ensures
            final(self)@ == (MovieModel {
                last_pts_time: old(self)@.time_base.spec_micros(pts),
                ..old(self)@
            }),
    {
        self.last_pts_time = self.time_base.to_micros(pts);
    }

    /// Sets the media time of the picture shown last to `t` microseconds.
    pub fn update_last_time(&mut self, t: i64)
        ensures
            final(self)@ == (MovieModel { last_pts_time: t as int, ..old(self)@ }),
    {
        self.last_pts_time = MediaTime::from_micros(t);
    }

    /// Empties both queues and returns what they held, for the caller to
    /// release. This is the last step of shutting a source down, once its
    /// reader and decoder have stopped.
    pub fn drain_queues(&mut self) -> (drained: Drained<D, B>)
        ensures
            final(self)@ == (MovieModel {
                packets: Seq::empty(),
                pictures: Seq::empty(),
                ..old(self)@
            }),
            drained.packets@ == old(self)@.packets,
            drained.pictures@ == old(self)@.pictures,
    {
        let packets = self.videoqueue.drain();
        let pictures = self.picq.drain();
        Drained { packets, pictures }
    }
}

/// Queues an encoded unit on a source's packet queue. When the queue is full
/// it is left as it was and the unit comes back inside the error.
pub fn movie_state_enqueue_packet<D>(
    videoqueue: &mut BoundedQueue<PacketWrapper<D>, PACKET_QUEUE_CAPACITY>,
    packet: PacketWrapper<D>,
) -> (queued: Result<(), Full<PacketWrapper<D>>>)
    ensures
        final(videoqueue)@ == after_push(old(videoqueue)@, PACKET_QUEUE_CAPACITY as nat, packet),
        queued is Ok <==> old(videoqueue)@.len() < PACKET_QUEUE_CAPACITY,
        queued matches Err(full) ==> full.item == packet,
{
    videoqueue.push(packet)
}

/// Queues a copy of a decoded picture on a source's picture queue. The
/// decoder writes its next picture into the same buffer, so the queue gets
/// a copy of its own and `frame` stays with the caller. When the queue is
/// full it is left as it was and no copy is made.
pub fn movie_state_enqueue_frame<B: Clone>(
    picq: &mut BoundedQueue<FrameWrapper<B>, PICTURE_QUEUE_CAPACITY>,
    frame: &FrameWrapper<B>,
) -> (queued: Result<(), ()>)
    ensures
        queued is Ok <==> old(picq)@.len() < PICTURE_QUEUE_CAPACITY,
        queued is Err ==> final(picq)@ == old(picq)@,
        queued is Ok ==> {
            &&& final(picq)@.len() == old(picq)@.len() + 1
            &&& final(picq)@.drop_last() == old(picq)@
            &&& frame.copied_to(final(picq)@.last())
        },
{
    if picq.is_full() {
        return Err(());
    }
    let copy = frame.duplicate();
    match picq.push(copy) {
        Ok(()) => {
            assert(picq@.drop_last() =~= old(picq)@);
            Ok(())
        },
        Err(_) => Err(()),
    }
}

} // verus!
