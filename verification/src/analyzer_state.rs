//! The player root: the sources, the master clock they share and the
//! scheduler that decides, source by source and tick by tick, whether the
//! next queued picture is shown, held or dropped.

use crate::filter::FilterSettings;
use crate::movie_state::Drained;
use crate::movie_state::FrameWrapper;
use crate::movie_state::MovieModel;
use crate::movie_state::MovieState;
use crate::timing::NO_PTS;
use vstd::prelude::*;

verus! {

/// A picture that is early by no more than this many microseconds is shown.
pub const HOLD_EPSILON: i128 = 100;

/// A picture is dropped once it is late by more than this many microseconds.
pub const DROP_SLACK: i128 = 1_000;

/// The most pictures that one call of the scheduler drops.
pub const MAX_DROPS: usize = 5;

/// The master clock that paces every source.
#[derive(Clone, Copy, Debug, PartialEq, Eq, Structural)]
pub struct Clock {
    /// The highest timestamp shown so far by any source, `NO_PTS` while
    /// nothing has been shown.
    pub pts: i64,
    pub pts_drift: i64,
    /// The wall-clock instant, in microseconds, at which a picture was shown
    /// last.
    pub last_updated: i64,
    pub paused: bool,
}

impl Clock {
    /// A clock that has shown nothing.
    pub fn new() -> (clock: Clock)
        ensures
            clock == (Clock { pts: NO_PTS, pts_drift: 0, last_updated: 0, paused: false }),
    {
        Clock { pts: NO_PTS, pts_drift: 0, last_updated: 0, paused: false }
    }
}

/// What the pacing rules say of one queued picture.
pub enum Pacing {
    /// Too early: leave it queued.
    Hold,
    /// Too late: discard it.
    Drop,
    /// Due: show it.
    Show,
}

/// The outcome of pacing a source, before any picture is taken.
#[derive(Clone, Copy, Debug, PartialEq, Eq, Structural)]
pub enum Verdict {
    /// Nothing to show on this tick.
    NotReady,
    /// The oldest picture is early by `delay` microseconds beyond the
    /// tolerance; it stays queued.
    Hold { delay: i128 },
    /// A picture is due; it was `delay` microseconds early.
    Ready { delay: i128 },
}

/// What `peek_movie_state_packet` returns: the verdict, and the pictures it
/// dropped, oldest first, for the caller to release.
#[derive(Debug, PartialEq, Eq)]
pub struct Peek<B> {
    pub verdict: Verdict,
    pub dropped: Vec<FrameWrapper<B>>,
}

/// The outcome of one scheduler call for one source.
#[derive(Debug, PartialEq, Eq)]
pub enum Decision<B> {
    /// Nothing to show on this tick.
    NotReady,
    /// The oldest picture is early by `delay` microseconds beyond the
    /// tolerance; it stays queued.
    Hold { delay: i128 },
    /// A picture to show now. It was `delay` microseconds early, and `build`
    /// holds the filter chain to build for it first when the source has none.
    Ready { picture: FrameWrapper<B>, delay: i128, build: Option<FilterSettings> },
}

/// What `dequeue_frame` returns: the decision, and the pictures it dropped,
/// oldest first, for the caller to release.
#[derive(Debug, PartialEq, Eq)]
pub struct Tick<B> {
    pub decision: Decision<B>,
    pub dropped: Vec<FrameWrapper<B>>,
}

/// The timestamp shown last as the pacing of `pts` sees it: unset when `pts`
/// lies before it, which happens when the input has looped or jumped back.
pub open spec fn baseline<D, B>(movie: MovieModel<D, B>, pts: i64) -> i64 {
    if movie.last_pts != NO_PTS && pts < movie.last_pts {
        NO_PTS
    } else {
        movie.last_pts
    }
}

/// How many microseconds a picture with timestamp `pts` is early at `now`:
/// the media time that has passed since the picture shown last, less the
/// wall-clock time that has passed since the clock was updated, and zero
/// when that is negative or when the source has no picture to measure from.
pub open spec fn delay_of<D, B>(movie: MovieModel<D, B>, clock: Clock, pts: i64, now: i64) -> int {
    if baseline(movie, pts) == NO_PTS {
        0
    } else {
        let early = movie.time_base.spec_micros(pts) - movie.last_pts_time - (now
            - clock.last_updated);
        if early > 0 {
            early
        } else {
            0
        }
    }
}

/// Whether a picture with timestamp `pts` is too late to show at `now`: the
/// source has shown a picture before, and the instant of that display plus
/// the picture's media time lies more than `DROP_SLACK` behind `now`.
pub open spec fn overdue<D, B>(movie: MovieModel<D, B>, pts: i64, now: i64) -> bool {
    &&& baseline(movie, pts) != NO_PTS
    &&& movie.last_display_time + movie.time_base.spec_micros(pts) + DROP_SLACK < now
}

/// What the pacing rules say of a picture with timestamp `pts` at the head
/// of a playing source's queue.
pub open spec fn pacing<D, B>(movie: MovieModel<D, B>, clock: Clock, pts: i64, now: i64) -> Pacing {
    if delay_of(movie, clock, pts, now) > HOLD_EPSILON {
        Pacing::Hold
    } else if overdue(movie, pts, now) {
        Pacing::Drop
    } else {
        Pacing::Show
    }
}

/// Whether a scheduler call on a playing source drops exactly `count`
/// pictures: the first `count` queued pictures are all too late, and the
/// dropping stops at `MAX_DROPS`, at the end of the queue, or at the first
/// picture that is not too late.
pub open spec fn is_drop_count<D, B>(
    movie: MovieModel<D, B>,
    clock: Clock,
    now: i64,
    count: nat,
) -> bool {
    &&& count <= MAX_DROPS
    &&& count <= movie.pictures.len()
    &&& forall|i: int|
        0 <= i < count ==> pacing(movie, clock, (#[trigger] movie.pictures[i]).pts, now)
            is Drop
    &&& (count < MAX_DROPS && count < movie.pictures.len()) ==> !(pacing(
        movie,
        clock,
        movie.pictures[count as int].pts,
        now,
    ) is Drop)
}

/// How many pictures a scheduler call drops: none for a source that has a
/// step pending or is paused, else the count that `is_drop_count` describes.
pub open spec fn drops_exactly<D, B>(
    movie: MovieModel<D, B>,
    clock: Clock,
    now: i64,
    count: nat,
) -> bool {
    if movie.step || movie.paused {
        count == 0
    } else {
        is_drop_count(movie, clock, now, count)
    }
}

/// The later of two timestamps.
pub open spec fn later(a: i64, b: i64) -> i64 {
    if a < b {
        b
    } else {
        a
    }
}

/// How many microseconds the oldest picture left after `count` drops is
/// early at `now`.
pub open spec fn front_delay<D, B>(
    movie: MovieModel<D, B>,
    clock: Clock,
    now: i64,
    count: nat,
) -> int {
    delay_of(movie, clock, movie.pictures[count as int].pts, now)
}

/// Whether `delay` is the delay that a verdict of the given kind carries
/// after `count` drops: a held picture is held for as long as it is early
/// beyond the tolerance, a picture shown by pacing carries how early it is,
/// and a picture shown on a step carries no delay.
pub open spec fn is_carried_delay<D, B>(
    movie: MovieModel<D, B>,
    clock: Clock,
    now: i64,
    count: nat,
    held: bool,
    delay: int,
) -> bool {
    if held {
        delay == front_delay(movie, clock, now, count) - HOLD_EPSILON
    } else if movie.step {
        delay == 0
    } else {
        delay == front_delay(movie, clock, now, count)
    }
}

/// The source, the clock and the verdict after pacing a source from which
/// `count` pictures were dropped.
///
/// A pending step is used up and gives `Ready` with no delay, whatever the
/// clock says. A paused source is idle. A playing source loses the dropped
/// pictures; it is not ready when the drop limit is reached or nothing is
/// left; else its oldest picture is held when it is early, and otherwise
/// shown, which moves the source's bookkeeping and the master clock to it.
pub open spec fn peek_result<D, B>(
    movie: MovieModel<D, B>,
    clock: Clock,
    now: i64,
    count: nat,
) -> (MovieModel<D, B>, Clock, Verdict) {
    if movie.step {
        (MovieModel { step: false, ..movie }, clock, Verdict::Ready { delay: 0 })
    } else if movie.paused {
        (movie, clock, Verdict::NotReady)
    } else {
        let rest = movie.pictures.skip(count as int);
        let waiting = MovieModel { pictures: rest, ..movie };
        if count == MAX_DROPS || rest.len() == 0 {
            (waiting, clock, Verdict::NotReady)
        } else {
            let pts = rest[0].pts;
            let delay = delay_of(movie, clock, pts, now);
            if delay > HOLD_EPSILON {
                (waiting, clock, Verdict::Hold { delay: (delay - HOLD_EPSILON) as i128 })
            } else {
                (
                    MovieModel {
                        last_pts: pts,
                        last_pts_time: movie.time_base.spec_micros(pts),
                        last_display_time: now,
                        ..waiting
                    },
                    Clock { pts: later(clock.pts, pts), last_updated: now, ..clock },
                    Verdict::Ready { delay: delay as i128 },
                )
            }
        }
    }
}

/// The source, the clock and the decision after a scheduler call that
/// dropped `count` pictures: as `peek_result` says, and on `Ready` the
/// oldest picture left is taken from the queue. A step on an empty queue
/// finds no picture and is not ready.
pub open spec fn tick_result<D, B>(
    movie: MovieModel<D, B>,
    clock: Clock,
    now: i64,
    count: nat,
) -> (MovieModel<D, B>, Clock, Decision<B>) {
    let (paced, ticked, verdict) = peek_result(movie, clock, now, count);
    match verdict {
        Verdict::NotReady => (paced, ticked, Decision::NotReady),
        Verdict::Hold { delay } => (paced, ticked, Decision::Hold { delay }),
        Verdict::Ready { delay } => {
            if paced.pictures.len() > 0 {
                (
                    MovieModel { pictures: paced.pictures.skip(1), ..paced },
                    ticked,
                    Decision::Ready {
                        picture: paced.pictures[0],
                        delay,
                        build: paced.build_for(paced.pictures[0]),
                    },
                )
            } else {
                (paced, ticked, Decision::NotReady)
            }
        },
    }
}

/// Paces one source against the master clock at wall-clock instant `now`,
/// dropping the pictures that are too late. The picture that a `Ready`
/// verdict speaks of stays at the head of the queue.
pub fn pace_source<D, B>(movie: &mut MovieState<D, B>, clock: &mut Clock, now: i64) -> (peek: Peek<
    B,
>)
    ensures
        drops_exactly(old(movie)@, *old(clock), now, peek.dropped@.len()),
        peek.dropped@ == old(movie)@.pictures.take(peek.dropped@.len() as int),
        (final(movie)@, *final(clock), peek.verdict) == peek_result(
            old(movie)@,
            *old(clock),
            now,
            peek.dropped@.len(),
        ),
        peek.verdict matches Verdict::Hold { delay } ==> is_carried_delay(
            old(movie)@,
            *old(clock),
            now,
            peek.dropped@.len(),
            true,
            delay as int,
        ),
        peek.verdict matches Verdict::Ready { delay } ==> is_carried_delay(
            old(movie)@,
            *old(clock),
            now,
            peek.dropped@.len(),
            false,
            delay as int,
        ),
{
    let mut dropped: Vec<FrameWrapper<B>> = Vec::new();
    if movie.step {
        movie.step = false;
        assert(old(movie)@.pictures.take(0) =~= dropped@);
        return Peek { verdict: Verdict::Ready { delay: 0 }, dropped };
    }
    if movie.paused {
        assert(old(movie)@.pictures.take(0) =~= dropped@);
        return Peek { verdict: Verdict::NotReady, dropped };
    }
    let ghost before = movie@;
    let ghost start = *clock;
    assert(before.pictures.skip(0) =~= before.pictures);
    assert(before.pictures.take(0) =~= dropped@);
    loop
        invariant
            !before.step,
            !before.paused,
            before == old(movie)@,
            start == *old(clock),
            *clock == start,
            dropped@.len() < MAX_DROPS,
            dropped@.len() <= before.pictures.len(),
            dropped@ == before.pictures.take(dropped@.len() as int),
            movie@ == (MovieModel {
                pictures: before.pictures.skip(dropped@.len() as int),
                ..before
            }),
            forall|i: int|
                0 <= i < dropped@.len() ==> pacing(
                    before,
                    start,
                    (#[trigger] before.pictures[i]).pts,
                    now,
                ) is Drop,
        decreases MAX_DROPS - dropped@.len(),
    {
        let count: usize = dropped.len();
        let pts: i64 = match movie.peek_frame_pts() {
            Some(pts) => pts,
            None => {
                return Peek { verdict: Verdict::NotReady, dropped };
            },
        };
        assert(pts == before.pictures[count as int].pts);
        let regressed: bool = movie.last_pts != NO_PTS && pts < movie.last_pts;
        let unset: bool = regressed || movie.last_pts == NO_PTS;
        let pts_time: i128 = movie.time_base.to_micros(pts).micros();
        let mut delay: i128 = 0;
        if !unset {
            let elapsed: i128 = now as i128 - clock.last_updated as i128;
            let early: i128 = pts_time - movie.last_pts_time.micros() - elapsed;
            if early > 0 {
                delay = early;
            }
        }
        assert(delay == delay_of(before, start, pts, now));
        if delay > HOLD_EPSILON {
            return Peek { verdict: Verdict::Hold { delay: delay - HOLD_EPSILON }, dropped };
        }
        let late: bool = !unset && movie.last_display_time as i128 + pts_time + DROP_SLACK
            < now as i128;
        assert(late == overdue(before, pts, now));
        if late {
            match movie.dequeue_frame() {
                Some(picture) => {
                    dropped.push(picture);
                },
                None => {},
            }
            assert(dropped@ =~= before.pictures.take(count + 1));
            assert(movie@.pictures =~= before.pictures.skip(count + 1));
            if dropped.len() == MAX_DROPS {
                return Peek { verdict: Verdict::NotReady, dropped };
            }
        } else {
            movie.last_pts = pts;
            movie.last_pts_time = movie.time_base.to_micros(pts);
            movie.last_display_time = now;
            if clock.pts < pts {
                clock.pts = pts;
            }
            clock.last_updated = now;
            return Peek { verdict: Verdict::Ready { delay }, dropped };
        }
    }
}

/// A scheduler call drops one number of pictures and no other: two counts
/// that both fit the rules are the same count.
pub proof fn lemma_drop_count_is_unique<D, B>(
    movie: MovieModel<D, B>,
    clock: Clock,
    now: i64,
    first: nat,
    second: nat,
)
    requires
        drops_exactly(movie, clock, now, first),
        drops_exactly(movie, clock, now, second),
    ensures
        first == second,
{
    if !movie.step && !movie.paused {
        if first < second {
            assert(pacing(movie, clock, movie.pictures[first as int].pts, now) is Drop);
        }
        if second < first {
            assert(pacing(movie, clock, movie.pictures[second as int].pts, now) is Drop);
        }
    }
}

/// The master clock never runs back: a scheduler call leaves the highest
/// shown timestamp where it was or moves it up, and when `now` is not before
/// the clock's last update, neither is the new last update, which in turn is
/// not after `now`.
pub proof fn lemma_clock_never_runs_back<D, B>(
    movie: MovieModel<D, B>,
    clock: Clock,
    now: i64,
    count: nat,
)
    ensures
        tick_result(movie, clock, now, count).1.pts >= clock.pts,
        clock.last_updated <= now ==> clock.last_updated <= tick_result(
            movie,
            clock,
            now,
            count,
        ).1.last_updated <= now,
        tick_result(movie, clock, now, count).1 == peek_result(movie, clock, now, count).1,
        tick_result(movie, clock, now, count).2 is Ready ==> peek_result(
            movie,
            clock,
            now,
            count,
        ).2 is Ready,
{
}

/// The clock moves only when a picture is shown: unless the decision is
/// `Ready`, a scheduler call on a source without a pending step leaves the
/// clock as it was; and a picture shown by pacing leaves the clock at `now`
/// with a timestamp no lower than the picture's.
pub proof fn lemma_clock_moves_with_shown_pictures<D, B>(
    movie: MovieModel<D, B>,
    clock: Clock,
    now: i64,
    count: nat,
)
    requires
        !movie.step,
    ensures
        !(tick_result(movie, clock, now, count).2 is Ready) ==> tick_result(
            movie,
            clock,
            now,
            count,
        ).1 == clock,
        tick_result(movie, clock, now, count).2 matches Decision::Ready { picture, .. } ==> {
            &&& tick_result(movie, clock, now, count).1.last_updated == now
            &&& tick_result(movie, clock, now, count).1.pts >= picture.pts
            &&& tick_result(movie, clock, now, count).0.last_pts == picture.pts
            &&& tick_result(movie, clock, now, count).0.last_display_time == now
        },
{
}

/// A timestamp that lies before the one shown last restarts the pacing: the
/// source counts as having shown nothing, so the picture is neither held nor
/// dropped but shown at once with no delay, and pacing goes on from it.
pub proof fn lemma_regression_restarts_pacing<D, B>(
    movie: MovieModel<D, B>,
    clock: Clock,
    now: i64,
)
    requires
        !movie.step,
        !movie.paused,
        movie.pictures.len() > 0,
        movie.last_pts != NO_PTS,
        movie.pictures[0].pts < movie.last_pts,
    ensures
        baseline(movie, movie.pictures[0].pts) == NO_PTS,
        delay_of(movie, clock, movie.pictures[0].pts, now) == 0,
        drops_exactly(movie, clock, now, 0),
        tick_result(movie, clock, now, 0).2 == (Decision::Ready {
            picture: movie.pictures[0],
            delay: 0,
            build: movie.build_for(movie.pictures[0]),
        }),
        tick_result(movie, clock, now, 0).0.last_pts == movie.pictures[0].pts,
{
    assert(movie.pictures.skip(0) =~= movie.pictures);
}

/// A pending step bypasses the pacing: whatever the clock and the source's
/// bookkeeping say, paused or not, the call drops nothing, hands out the
/// oldest queued picture with no delay and uses the step up, and it leaves
/// the clock and the rest of the bookkeeping alone.
pub proof fn lemma_step_bypasses_pacing<D, B>(movie: MovieModel<D, B>, clock: Clock, now: i64)
    requires
        movie.step,
        movie.pictures.len() > 0,
    ensures
        forall|count: nat| drops_exactly(movie, clock, now, count) <==> count == 0,
        tick_result(movie, clock, now, 0) == (
            MovieModel { step: false, pictures: movie.pictures.skip(1), ..movie },
            clock,
            Decision::Ready {
                picture: movie.pictures[0],
                delay: 0,
                build: movie.build_for(movie.pictures[0]),
            },
        ),
{
}

/// A paused source without a pending step is idle: the call drops nothing,
/// shows nothing and changes nothing.
pub proof fn lemma_paused_source_is_idle<D, B>(movie: MovieModel<D, B>, clock: Clock, now: i64)
    requires
        !movie.step,
        movie.paused,
    ensures
        forall|count: nat| drops_exactly(movie, clock, now, count) <==> count == 0,
        tick_result(movie, clock, now, 0) == (movie, clock, Decision::<B>::NotReady),
{
}

/// One scheduler call never drops more than `MAX_DROPS` pictures, and a call
/// that drops that many is not ready: it shows and holds nothing on this
/// tick.
pub proof fn lemma_drops_are_bounded<D, B>(
    movie: MovieModel<D, B>,
    clock: Clock,
    now: i64,
    count: nat,
)
    requires
        drops_exactly(movie, clock, now, count),
    ensures
        count <= MAX_DROPS,
        count <= movie.pictures.len(),
        count == MAX_DROPS ==> tick_result(movie, clock, now, count).2 == Decision::<
            B,
        >::NotReady,
        count == MAX_DROPS ==> peek_result(movie, clock, now, count).2 == Verdict::NotReady,
{
}

/// The picture that a decision hands out: one on `Ready`, none otherwise.
pub open spec fn handed_out<B>(decision: Decision<B>) -> Seq<FrameWrapper<B>> {
    match decision {
        Decision::Ready { picture, .. } => seq![picture],
        _ => Seq::empty(),
    }
}

/// A scheduler call loses no picture and makes none up: the pictures that
/// were queued are the pictures it dropped, then the picture it handed out,
/// if any, then the pictures still queued, in this order. Pictures
/// therefore leave a source in the order in which they were decoded.
pub proof fn lemma_tick_accounts_for_every_picture<D, B>(
    movie: MovieModel<D, B>,
    clock: Clock,
    now: i64,
    count: nat,
)
    requires
        drops_exactly(movie, clock, now, count),
    ensures
        movie.pictures == movie.pictures.take(count as int) + handed_out(
            tick_result(movie, clock, now, count).2,
        ) + tick_result(movie, clock, now, count).0.pictures,
{
    let (taken, _, decision) = tick_result(movie, clock, now, count);
    assert(movie.pictures =~= movie.pictures.take(count as int) + handed_out(decision)
        + taken.pictures);
}

/// A delay is never negative, and a held picture is held for a positive
/// time.
pub proof fn lemma_delay_is_not_negative<D, B>(
    movie: MovieModel<D, B>,
    clock: Clock,
    pts: i64,
    now: i64,
)
    ensures
        delay_of(movie, clock, pts, now) >= 0,
        pacing(movie, clock, pts, now) is Hold ==> delay_of(movie, clock, pts, now)
            - HOLD_EPSILON > 0,
{
}

/// The player root: every source, the master clock and the pause state
/// that they share.
pub struct AnalyzerContext<D, B> {
    /// The sources, in the order in which they were added.
    pub movie_list: Vec<MovieState<D, B>>,
    pub paused: bool,
    pub clock: Clock,
    /// Asks the render loop for a redraw although no picture is due, as after
    /// a step.
    pub force_render: bool,
}

/// The mathematical model of the player root.
pub struct AnalyzerModel<D, B> {
    pub movies: Seq<MovieModel<D, B>>,
    pub paused: bool,
    pub clock: Clock,
    pub force_render: bool,
}

impl<D, B> View for AnalyzerContext<D, B> {
    type V = AnalyzerModel<D, B>;

    open spec fn view(&self) -> AnalyzerModel<D, B> {
        AnalyzerModel {
            movies: self.movie_list@.map_values(|movie: MovieState<D, B>| movie@),
            paused: self.paused,
            clock: self.clock,
            force_render: self.force_render,
        }
    }
}

/// A source after its pause state was toggled: the picture shown last is
/// forgotten.
pub open spec fn toggled<D, B>(movie: MovieModel<D, B>) -> MovieModel<D, B> {
    MovieModel { paused: !movie.paused, last_pts: NO_PTS, ..movie }
}

/// A source with a step pending.
pub open spec fn stepped<D, B>(movie: MovieModel<D, B>) -> MovieModel<D, B> {
    MovieModel { step: true, ..movie }
}

/// The player after a scheduler call for source `index` at `now` that
/// dropped `count` pictures. Without such a source nothing changes.
pub open spec fn after_tick<D, B>(
    analyzer: AnalyzerModel<D, B>,
    index: int,
    now: i64,
    count: nat,
) -> AnalyzerModel<D, B> {
    if 0 <= index < analyzer.movies.len() {
        let (taken, ticked, _) = tick_result(analyzer.movies[index], analyzer.clock, now, count);
        AnalyzerModel { movies: analyzer.movies.update(index, taken), clock: ticked, ..analyzer }
    } else {
        analyzer
    }
}

/// The decision of a scheduler call for source `index` at `now` that dropped
/// `count` pictures.
pub open spec fn decision_of<D, B>(
    analyzer: AnalyzerModel<D, B>,
    index: int,
    now: i64,
    count: nat,
) -> Decision<B> {
    if 0 <= index < analyzer.movies.len() {
        tick_result(analyzer.movies[index], analyzer.clock, now, count).2
    } else {
        Decision::NotReady
    }
}

/// One scheduler call: the source it is for, its wall-clock instant and the
/// number of pictures it dropped.
pub struct Call {
    pub index: int,
    pub now: i64,
    pub count: nat,
}

/// The player after a run of scheduler calls, first to last.
pub open spec fn after_calls<D, B>(analyzer: AnalyzerModel<D, B>, calls: Seq<Call>) -> AnalyzerModel<
    D,
    B,
>
    decreases calls.len(),
{
    if calls.len() == 0 {
        analyzer
    } else {
        let call = calls.last();
        after_tick(after_calls(analyzer, calls.drop_last()), call.index, call.now, call.count)
    }
}

/// Whether the wall clock never ran back during a run of calls that began
/// no earlier than `start`.
pub open spec fn in_time_order(start: i64, calls: Seq<Call>) -> bool {
    &&& forall|i: int| 0 <= i < calls.len() ==> start <= (#[trigger] calls[i]).now
    &&& forall|i: int, j: int|
        0 <= i <= j < calls.len() ==> (#[trigger] calls[i]).now <= (#[trigger] calls[j]).now
}

/// Over any run of scheduler calls, for whatever sources, the master clock's
/// timestamp never decreases; and as long as the wall clock does not run
/// back, neither does the clock's last update, which never passes the
/// instant of the last call.
pub proof fn lemma_clock_is_monotonic_over_calls<D, B>(
    analyzer: AnalyzerModel<D, B>,
    calls: Seq<Call>,
)
    ensures
        after_calls(analyzer, calls).clock.pts >= analyzer.clock.pts,
        in_time_order(analyzer.clock.last_updated, calls) ==> {
            &&& after_calls(analyzer, calls).clock.last_updated >= analyzer.clock.last_updated
            &&& calls.len() > 0 ==> after_calls(analyzer, calls).clock.last_updated
                <= calls.last().now
        },
    decreases calls.len(),
{
    if calls.len() > 0 {
        let earlier = calls.drop_last();
        let call = calls.last();
        let reached = after_calls(analyzer, earlier);
        lemma_clock_is_monotonic_over_calls(analyzer, earlier);
        if 0 <= call.index < reached.movies.len() {
            lemma_clock_never_runs_back(
                reached.movies[call.index],
                reached.clock,
                call.now,
                call.count,
            );
        }
        if in_time_order(analyzer.clock.last_updated, calls) {
            assert(in_time_order(analyzer.clock.last_updated, earlier)) by {
                assert forall|i: int| 0 <= i < earlier.len() implies analyzer.clock.last_updated
                    <= (#[trigger] earlier[i]).now by {
                    assert(earlier[i] == calls[i]);
                }
                assert forall|i: int, j: int| 0 <= i <= j < earlier.len() implies (
                #[trigger] earlier[i]).now <= (#[trigger] earlier[j]).now by {
                    assert(earlier[i] == calls[i]);
                    assert(earlier[j] == calls[j]);
                }
            }
            if earlier.len() > 0 {
                assert(earlier.last() == calls[earlier.len() - 1]);
                assert(calls[earlier.len() - 1].now <= calls[calls.len() - 1].now);
            } else {
                assert(analyzer.clock.last_updated <= calls[0].now);
            }
        }
    }
}

impl<D, B> AnalyzerContext<D, B> {
    /// A paused player without sources, whose clock has shown nothing and
    /// which asks for a first redraw.
    pub fn new() -> (analyzer: AnalyzerContext<D, B>)
        ensures
            analyzer@ == (AnalyzerModel::<D, B> {
                movies: Seq::empty(),
                paused: true,
                clock: Clock { pts: NO_PTS, pts_drift: 0, last_updated: 0, paused: false },
                force_render: true,
            }),
    {
        let analyzer = AnalyzerContext {
            movie_list: Vec::new(),
            paused: true,
            clock: Clock::new(),
            force_render: true,
        };
        assert(analyzer@.movies =~= Seq::empty());
        analyzer
    }

    /// Adds a source as the last one, with its pause state toggled: a fresh
    /// source joins the paused player paused.
    pub fn add_movie_state(&mut self, movie: MovieState<D, B>)
        ensures
            final(self)@ == (AnalyzerModel {
                movies: old(self)@.movies.push(toggled(movie@)),
                ..old(self)@
            }),
    {
        let ghost added = toggled(movie@);
        let mut movie = movie;
        movie.pause();
        self.movie_list.push(movie);
        assert(self@.movies =~= old(self)@.movies.push(added));
    }

    /// The number of sources, as far as a byte counts: the number modulo 256.
    pub fn movie_count(&self) -> (count: u8)
        ensures
            count == self@.movies.len() % 256,
    {
        (self.movie_list.len() % 256) as u8
    }

    /// Paces source `movie_index` against the master clock at wall-clock
    /// instant `now`, dropping the pictures that are too late. The picture
    /// that a `Ready` verdict speaks of stays queued. Without such a source
    /// nothing is ready and nothing changes.
    pub fn peek_movie_state_packet(&mut self, movie_index: usize, now: i64) -> (peek: Peek<B>)
        ensures
            movie_index >= old(self)@.movies.len() ==> {
                &&& final(self)@ == old(self)@
                &&& peek.verdict == Verdict::NotReady
                &&& peek.dropped@.len() == 0
            },
            movie_index < old(self)@.movies.len() ==> {
                let movie = old(self)@.movies[movie_index as int];
                let count = peek.dropped@.len();
                let (paced, ticked, verdict) = peek_result(movie, old(self)@.clock, now, count);
                &&& drops_exactly(movie, old(self)@.clock, now, count)
                &&& peek.dropped@ == movie.pictures.take(count as int)
                &&& peek.verdict == verdict
                &&& final(self)@ == (AnalyzerModel {
                    movies: old(self)@.movies.update(movie_index as int, paced),
                    clock: ticked,
                    ..old(self)@
                })
                &&& peek.verdict matches Verdict::Hold { delay } ==> is_carried_delay(
                    movie,
                    old(self)@.clock,
                    now,
                    count,
                    true,
                    delay as int,
                )
                &&& peek.verdict matches Verdict::Ready { delay } ==> is_carried_delay(
                    movie,
                    old(self)@.clock,
                    now,
                    count,
                    false,
                    delay as int,
                )
            },
    {
        if movie_index >= self.movie_list.len() {
            return Peek { verdict: Verdict::NotReady, dropped: Vec::new() };
        }
        let peek = pace_source(&mut self.movie_list[movie_index], &mut self.clock, now);
        assert(self@.movies =~= old(self)@.movies.update(
            movie_index as int,
            self.movie_list@[movie_index as int]@,
        ));
        peek
    }

    /// One scheduler call for source `movie_index` at wall-clock instant
    /// `now`: paces the source as `peek_movie_state_packet` does and, when a
    /// picture is due, takes it from the queue. Without such a source nothing
    /// is ready and nothing changes.
    pub fn dequeue_frame(&mut self, movie_index: u8, now: i64) -> (tick: Tick<B>)
        ensures
            movie_index >= old(self)@.movies.len() ==> tick.dropped@.len() == 0,
            movie_index < old(self)@.movies.len() ==> {
                let movie = old(self)@.movies[movie_index as int];
                &&& drops_exactly(movie, old(self)@.clock, now, tick.dropped@.len())
                &&& tick.dropped@ == movie.pictures.take(tick.dropped@.len() as int)
                &&& tick.decision matches Decision::Hold { delay } ==> is_carried_delay(
                    movie,
                    old(self)@.clock,
                    now,
                    tick.dropped@.len(),
                    true,
                    delay as int,
                )
                &&& tick.decision matches Decision::Ready { delay, .. } ==> is_carried_delay(
                    movie,
                    old(self)@.clock,
                    now,
                    tick.dropped@.len(),
                    false,
                    delay as int,
                )
            },
            final(self)@ == after_tick(old(self)@, movie_index as int, now, tick.dropped@.len()),
            tick.decision == decision_of(old(self)@, movie_index as int, now, tick.dropped@.len()),
            final(self)@.clock.pts >= old(self)@.clock.pts,
            old(self)@.clock.last_updated <= now ==> final(self)@.clock.last_updated >= old(
                self,
            )@.clock.last_updated,
            tick.dropped@.len() <= MAX_DROPS,
            tick.dropped@.len() == MAX_DROPS ==> tick.decision == Decision::<B>::NotReady,
    {
        let index: usize = movie_index as usize;
        let peek = self.peek_movie_state_packet(index, now);
        let Peek { verdict, dropped } = peek;
        match verdict {
            Verdict::NotReady => Tick { decision: Decision::NotReady, dropped },
            Verdict::Hold { delay } => Tick { decision: Decision::Hold { delay }, dropped },
            Verdict::Ready { delay } => {
                let ghost paced = self@;
                assert(index < old(self)@.movies.len());
                assert(paced.movies.len() == self.movie_list@.len());
                let ghost source = paced.movies[index as int];
                let ghost listed = self.movie_list@;
                let movie = &mut self.movie_list[index];
                let build_needed: bool = movie.filter.is_unset();
                match movie.dequeue_frame() {
                    Some(picture) => {
                        let build = if build_needed {
                            Some(picture.filter_settings(crate::movie_state::DEFAULT_ROTATION))
                        } else {
                            None
                        };
                        proof {
                            let taken = MovieModel {
                                pictures: source.pictures.skip(1),
                                ..source
                            };
                            assert(source.pictures.skip(1) =~= crate::queue::after_pop(
                                source.pictures,
                            ));
                            assert(self.movie_list@[index as int]@ == taken);
                            assert(self.movie_list@ == listed.update(
                                index as int,
                                self.movie_list@[index as int],
                            ));
                            assert(self@.movies =~= paced.movies.update(index as int, taken));
                            assert(self@.movies =~= old(self)@.movies.update(index as int, taken));
                        }
                        Tick { decision: Decision::Ready { picture, delay, build }, dropped }
                    },
                    None => {
                        proof {
                            assert(self.movie_list@[index as int]@ == source);
                            assert(self@.movies =~= paced.movies);
                        }
                        Tick { decision: Decision::NotReady, dropped }
                    },
                }
            },
        }
    }

    /// Asks every source for one picture and the render loop for a redraw.
    /// A playing player ignores it.
    pub fn step(&mut self)
        ensures
            final(self)@ == (if old(self)@.paused {
                AnalyzerModel {
                    movies: old(self)@.movies.map_values(|movie: MovieModel<D, B>| stepped(movie)),
                    force_render: true,
                    ..old(self)@
                }
            } else {
                old(self)@
            }),
    {
        if !self.paused {
            return ;
        }
        let count: usize = self.movie_list.len();
        let mut index: usize = 0;
        while index < count
            invariant
                index <= count,
                count == self.movie_list@.len(),
                self.paused == old(self).paused,
                self.clock == old(self).clock,
                self.force_render == old(self).force_render,
                self@.movies.len() == old(self)@.movies.len(),
                forall|i: int|
                    0 <= i < index ==> #[trigger] self@.movies[i] == stepped(old(self)@.movies[i]),
                forall|i: int|
                    index <= i < count ==> #[trigger] self@.movies[i] == old(self)@.movies[i],
            decreases count - index,
        {
            let ghost reached = self@;
            self.movie_list[index].step_force();
            assert(self@.movies =~= reached.movies.update(
                index as int,
                stepped(reached.movies[index as int]),
            ));
            index += 1;
        }
        self.force_render = true;
        assert(self@.movies =~= old(self)@.movies.map_values(
            |movie: MovieModel<D, B>| stepped(movie),
        ));
    }

    /// Toggles the player and every source between paused and playing.
    pub fn pause(&mut self)
        ensures
            final(self)@ == (AnalyzerModel {
                movies: old(self)@.movies.map_values(|movie: MovieModel<D, B>| toggled(movie)),
                paused: !old(self)@.paused,
                ..old(self)@
            }),
    {
        self.paused = !self.paused;
        let count: usize = self.movie_list.len();
        let mut index: usize = 0;
        while index < count
            invariant
                index <= count,
                count == self.movie_list@.len(),
                self.paused == !old(self).paused,
                self.clock == old(self).clock,
                self.force_render == old(self).force_render,
                self@.movies.len() == old(self)@.movies.len(),
                forall|i: int|
                    0 <= i < index ==> #[trigger] self@.movies[i] == toggled(old(self)@.movies[i]),
                forall|i: int|
                    index <= i < count ==> #[trigger] self@.movies[i] == old(self)@.movies[i],
            decreases count - index,
        {
            let ghost reached = self@;
            self.movie_list[index].pause();
            assert(self@.movies =~= reached.movies.update(
                index as int,
                toggled(reached.movies[index as int]),
            ));
            index += 1;
        }
        assert(self@.movies =~= old(self)@.movies.map_values(
            |movie: MovieModel<D, B>| toggled(movie),
        ));
    }

    /// Whether the player is paused.
    pub fn is_paused(&self) -> (paused: bool)
        ensures
            paused == self@.paused,
    {
        self.paused
    }

    /// An iterator over the sources, in the order in which they were added.
    pub fn movie_list_iter(&self) -> (sources: core::slice::Iter<'_, MovieState<D, B>>)
        ensures
            vstd::std_specs::slice::into_iter_elts(sources) == self.movie_list@,
    {
        broadcast use vstd::std_specs::slice::axiom_spec_slice_iter;

        let sources = self.movie_list.as_slice().iter();
        assert(vstd::std_specs::slice::into_iter_elts(sources) =~= self.movie_list@);
        sources
    }

    /// Shuts the player down: removes every source, last added first, and
    /// returns what the queues of each held, for the caller to release.
    pub fn close(&mut self) -> (released: Vec<Drained<D, B>>)
        ensures
            final(self)@ == (AnalyzerModel { movies: Seq::empty(), ..old(self)@ }),
            released@.len() == old(self)@.movies.len(),
            forall|i: int|
                0 <= i < released@.len() ==> {
                    let movie = old(self)@.movies[old(self)@.movies.len() - 1 - i];
                    &&& (#[trigger] released@[i]).packets@ == movie.packets
                    &&& released@[i].pictures@ == movie.pictures
                },
    {
        let mut released: Vec<Drained<D, B>> = Vec::new();
        loop
            invariant
                self.paused == old(self).paused,
                self.clock == old(self).clock,
                self.force_render == old(self).force_render,
                self.movie_list@.len() + released@.len() == old(self).movie_list@.len(),
                self.movie_list@ == old(self).movie_list@.take(self.movie_list@.len() as int),
                forall|i: int|
                    0 <= i < released@.len() ==> {
                        let movie = old(self)@.movies[old(self)@.movies.len() - 1 - i];
                        &&& (#[trigger] released@[i]).packets@ == movie.packets
                        &&& released@[i].pictures@ == movie.pictures
                    },
            ensures
                self.movie_list@.len() == 0,
            decreases self.movie_list@.len(),
        {
            match self.movie_list.pop() {
                Some(movie) => {
                    let mut movie = movie;
                    let drained = movie.drain_queues();
                    released.push(drained);
                },
                None => {
                    break ;
                },
            }
        }
        assert(self@.movies =~= Seq::empty());
        released
    }
}

} // verus!
