//! The rotation filter of a source: a picture goes in, a display-ready
//! picture comes out. The chain is built once, from the first picture, as a
//! source, one transform and a sink.
//!
//! Building the chain is outside work in several pieces, each of which can
//! fail. `FilterBuild` orders the pieces: it names the next piece, takes
//! the response to it and decides how to go on.

use vstd::prelude::*;

verus! {

/// Which ends of a source's filter chain exist. A chain with a missing end
/// has to be built before a picture can pass through it.
#[derive(Clone, Copy, Debug, PartialEq, Eq, Structural)]
pub struct RotateFilter {
    /// The chain's last filter, where pictures come out.
    pub buffersink_set: bool,
    /// The chain's first filter, where pictures go in.
    pub buffersrc_set: bool,
}

/// What a filter chain is built for: the rotation it applies and the
/// geometry and pixel format of the pictures it takes.
#[derive(Clone, Copy, Debug, PartialEq, Eq, Structural)]
pub struct FilterSettings {
    pub rotation: i32,
    pub width: i32,
    pub height: i32,
    pub format: i32,
}

impl RotateFilter {
    /// A chain of which nothing exists yet.
    pub fn new() -> (filter: RotateFilter)
        ensures
            filter == (RotateFilter { buffersink_set: false, buffersrc_set: false }),
    {
        RotateFilter { buffersink_set: false, buffersrc_set: false }
    }

    /// Whether the chain has to be built before use.
    pub open spec fn spec_is_unset(&self) -> bool {
        !self.buffersrc_set || !self.buffersink_set
    }

    /// Whether the chain has to be built before use: true while either end
    /// is missing.
    #[verifier::when_used_as_spec(spec_is_unset)]
    pub fn is_unset(&self) -> (unset: bool)
        ensures
            unset == self.spec_is_unset(),
    {
        !self.buffersrc_set || !self.buffersink_set
    }
}

/// The decimal digit for `d`, a number below ten.
pub open spec fn digit_char(d: int) -> char {
    if d == 0 {
        '0'
    } else if d == 1 {
        '1'
    } else if d == 2 {
        '2'
    } else if d == 3 {
        '3'
    } else if d == 4 {
        '4'
    } else if d == 5 {
        '5'
    } else if d == 6 {
        '6'
    } else if d == 7 {
        '7'
    } else if d == 8 {
        '8'
    } else {
        '9'
    }
}

/// The decimal digits of `n`, without leading zeros.
pub open spec fn digits(n: nat) -> Seq<char>
    decreases n,
{
    if n < 10 {
        seq![digit_char(n as int)]
    } else {
        digits(n / 10).push(digit_char((n % 10) as int))
    }
}

/// `n` in decimal, with a minus sign when it is negative.
pub open spec fn decimal_text(n: int) -> Seq<char> {
    if n < 0 {
        seq!['-'] + digits((-n) as nat)
    } else {
        digits(n as nat)
    }
}

/// The text of one decimal digit.
fn digit_str(d: u32) -> (text: &'static str)
    requires
        d < 10,
    ensures
        text@ == seq![digit_char(d as int)],
{
    proof {
        reveal_strlit("0");
        reveal_strlit("1");
        reveal_strlit("2");
        reveal_strlit("3");
        reveal_strlit("4");
        reveal_strlit("5");
        reveal_strlit("6");
        reveal_strlit("7");
        reveal_strlit("8");
        reveal_strlit("9");
    }
    let text = if d == 0 {
        "0"
    } else if d == 1 {
        "1"
    } else if d == 2 {
        "2"
    } else if d == 3 {
        "3"
    } else if d == 4 {
        "4"
    } else if d == 5 {
        "5"
    } else if d == 6 {
        "6"
    } else if d == 7 {
        "7"
    } else if d == 8 {
        "8"
    } else {
        "9"
    };
    assert(text@ =~= seq![digit_char(d as int)]);
    text
}

/// Appends the decimal digits of `n` to `text`.
fn append_digits(text: &mut String, n: u32)
    ensures
        final(text)@ == old(text)@ + digits(n as nat),
    decreases n,
{
    if n >= 10 {
        append_digits(text, n / 10);
    }
    text.append(digit_str(n % 10));
    assert(text@ =~= old(text)@ + digits(n as nat));
}

/// Appends `n` in decimal to `text`.
pub fn append_decimal(text: &mut String, n: i32)
    ensures
        final(text)@ == old(text)@ + decimal_text(n as int),
{
    if n < 0 {
        proof {
            reveal_strlit("-");
        }
        text.append("-");
        let magnitude: u32 = if n == i32::MIN {
            2_147_483_648
        } else {
            (-n) as u32
        };
        append_digits(text, magnitude);
        assert(text@ =~= old(text)@ + decimal_text(n as int));
    } else {
        append_digits(text, n as u32);
    }
}

/// The rate at which the chain's source counts time: 1/240 of a second.
pub const FILTER_TIME_BASE_NUM: i32 = 1;

/// The rate at which the chain's source counts time: 1/240 of a second.
pub const FILTER_TIME_BASE_DEN: i32 = 240;

/// The options of the chain's source for pictures of the given settings:
/// their size and pixel format, a time base of 1/240 and square pixels.
pub open spec fn spec_source_args(settings: FilterSettings) -> Seq<char> {
    "video_size="@ + decimal_text(settings.width as int) + "x"@ + decimal_text(
        settings.height as int,
    ) + ":pix_fmt="@ + decimal_text(settings.format as int) + ":time_base="@ + decimal_text(
        FILTER_TIME_BASE_NUM as int,
    ) + "/"@ + decimal_text(FILTER_TIME_BASE_DEN as int) + ":pixel_aspect=1/1"@
}

/// The options of the chain's source, as its filter reads them.
pub fn source_args(settings: &FilterSettings) -> (args: String)
    ensures
        args@ == spec_source_args(*settings),
{
    let mut args = String::from_str("video_size=");
    append_decimal(&mut args, settings.width);
    args.append("x");
    append_decimal(&mut args, settings.height);
    args.append(":pix_fmt=");
    append_decimal(&mut args, settings.format);
    args.append(":time_base=");
    append_decimal(&mut args, FILTER_TIME_BASE_NUM);
    args.append("/");
    append_decimal(&mut args, FILTER_TIME_BASE_DEN);
    args.append(":pixel_aspect=1/1");
    args
}

/// The transform between source and sink for a rotation in degrees: a
/// transposition for a quarter turn either way, and a transform that
/// changes nothing for any other rotation.
pub open spec fn spec_transpose_description(rotation: i32) -> Seq<char> {
    if rotation == 90 {
        "transpose=1"@
    } else if rotation == 270 {
        "transpose=2"@
    } else if rotation == -90 {
        "transpose=3"@
    } else {
        "tpad=0"@
    }
}

/// The transform between source and sink for a rotation in degrees.
pub fn transpose_description(rotation: i32) -> (description: &'static str)
    ensures
        description@ == spec_transpose_description(rotation),
{
    if rotation == 90 {
        "transpose=1"
    } else if rotation == 270 {
        "transpose=2"
    } else if rotation == -90 {
        "transpose=3"
    } else {
        "tpad=0"
    }
}

/// How far the building of a chain has come: the piece of work whose
/// response is awaited.
#[derive(Clone, Copy, Debug, PartialEq, Eq, Structural)]
pub enum BuildStage {
    /// The old chain is freed; the link descriptors and a new graph are
    /// allocated.
    Allocating,
    /// The source is created in the graph.
    CreatingSource,
    /// The sink is created in the graph.
    CreatingSink,
    /// The transform is parsed and linked between source and sink.
    Parsing,
    /// The graph is configured.
    Configuring,
    /// Nothing is awaited: the build has ended.
    Done,
}

/// A piece of the outside work of building a chain. Each but `Finish` and
/// `Ended` is answered by a response, negative for a failure.
#[derive(Debug, PartialEq, Eq)]
pub enum BuildAction {
    /// Free the old chain, allocate the link descriptors and a new graph;
    /// answer with the out-of-memory error when one could not be allocated.
    Allocate,
    /// Create the source, named `in`, with these options.
    CreateSource { args: String },
    /// Create the sink, named `out`.
    CreateSink,
    /// Parse this transform and link it between source and sink.
    Parse { description: &'static str },
    /// Configure the graph.
    Configure,
    /// Free the link descriptors and end the build with this result: zero
    /// for a configured graph, and else the negative response that ended the
    /// build.
    Finish { code: i32 },
    /// Nothing is left to do: the build ended before, with this result, and
    /// the link descriptors are freed already.
    Ended { code: i32 },
}

/// The mathematical model of a piece of outside work.
pub enum BuildWork {
    Allocate,
    CreateSource { args: Seq<char> },
    CreateSink,
    Parse { description: Seq<char> },
    Configure,
    Finish { code: i32 },
    Ended { code: i32 },
}

impl View for BuildAction {
    type V = BuildWork;

    open spec fn view(&self) -> BuildWork {
        match self {
            BuildAction::Allocate => BuildWork::Allocate,
            BuildAction::CreateSource { args } => BuildWork::CreateSource { args: args@ },
            BuildAction::CreateSink => BuildWork::CreateSink,
            BuildAction::Parse { description } => BuildWork::Parse { description: description@ },
            BuildAction::Configure => BuildWork::Configure,
            BuildAction::Finish { code } => BuildWork::Finish { code: *code },
            BuildAction::Ended { code } => BuildWork::Ended { code: *code },
        }
    }
}

/// The building of one filter chain.
#[derive(Clone, Copy, Debug, PartialEq, Eq, Structural)]
pub struct FilterBuild {
    /// What the chain is built for.
    pub settings: FilterSettings,
    /// The piece of work whose response is awaited.
    pub stage: BuildStage,
    /// The ends of the chain that exist so far.
    pub filter: RotateFilter,
    /// The result of the build, once it has ended: zero for a configured
    /// graph, and else the negative response that ended the build.
    pub code: i32,
}

/// The build after a response, and the work to do next.
///
/// A negative response to any piece of work is a failure: it ends the build
/// with that response as its result, and no further piece is asked for. An
/// end of the chain exists once its creation was answered without failure.
/// Only a build whose graph was configured ends with zero. Once a build has
/// ended, nothing changes any more and nothing is left to do.
pub open spec fn build_plan(build: FilterBuild, response: i32) -> (FilterBuild, BuildWork) {
    match build.stage {
        BuildStage::Allocating => if response < 0 {
            (
                FilterBuild { stage: BuildStage::Done, code: response, ..build },
                BuildWork::Finish { code: response },
            )
        } else {
            (
                FilterBuild { stage: BuildStage::CreatingSource, ..build },
                BuildWork::CreateSource { args: spec_source_args(build.settings) },
            )
        },
        BuildStage::CreatingSource => if response < 0 {
            (
                FilterBuild { stage: BuildStage::Done, code: response, ..build },
                BuildWork::Finish { code: response },
            )
        } else {
            (
                FilterBuild {
                    stage: BuildStage::CreatingSink,
                    filter: RotateFilter { buffersrc_set: true, ..build.filter },
                    ..build
                },
                BuildWork::CreateSink,
            )
        },
        BuildStage::CreatingSink => if response < 0 {
            (
                FilterBuild { stage: BuildStage::Done, code: response, ..build },
                BuildWork::Finish { code: response },
            )
        } else {
            (
                FilterBuild {
                    stage: BuildStage::Parsing,
                    filter: RotateFilter { buffersink_set: true, ..build.filter },
                    ..build
                },
                BuildWork::Parse {
                    description: spec_transpose_description(build.settings.rotation),
                },
            )
        },
        BuildStage::Parsing => if response < 0 {
            (
                FilterBuild { stage: BuildStage::Done, code: response, ..build },
                BuildWork::Finish { code: response },
            )
        } else {
            (FilterBuild { stage: BuildStage::Configuring, ..build }, BuildWork::Configure)
        },
        BuildStage::Configuring => if response < 0 {
            (
                FilterBuild { stage: BuildStage::Done, code: response, ..build },
                BuildWork::Finish { code: response },
            )
        } else {
            (
                FilterBuild { stage: BuildStage::Done, code: 0, ..build },
                BuildWork::Finish { code: 0 },
            )
        },
        BuildStage::Done => (build, BuildWork::Ended { code: build.code }),
    }
}

/// Begins to build a chain for `settings`. Nothing of the chain exists yet,
/// and the first piece of work is `BuildAction::Allocate`.
pub fn init_filter(settings: FilterSettings) -> (build: FilterBuild)
    ensures
        build == fresh_build(settings),
{
    FilterBuild { settings, stage: BuildStage::Allocating, filter: RotateFilter::new(), code: 0 }
}

impl FilterBuild {
    /// Takes the response to the piece of work that was awaited and names
    /// the next one.
    pub fn advance(&mut self, response: i32) -> (action: BuildAction)
        ensures
            (*final(self), action@) == build_plan(*old(self), response),
    {
        match self.stage {
            BuildStage::Allocating => {
                if response < 0 {
                    self.finish(response)
                } else {
                    self.stage = BuildStage::CreatingSource;
                    BuildAction::CreateSource { args: source_args(&self.settings) }
                }
            },
            BuildStage::CreatingSource => {
                if response < 0 {
                    self.finish(response)
                } else {
                    self.stage = BuildStage::CreatingSink;
                    self.filter.buffersrc_set = true;
                    BuildAction::CreateSink
                }
            },
            BuildStage::CreatingSink => {
                if response < 0 {
                    self.finish(response)
                } else {
                    self.stage = BuildStage::Parsing;
                    self.filter.buffersink_set = true;
                    BuildAction::Parse {
                        description: transpose_description(self.settings.rotation),
                    }
                }
            },
            BuildStage::Parsing => {
                if response < 0 {
                    self.finish(response)
                } else {
                    self.stage = BuildStage::Configuring;
                    BuildAction::Configure
                }
            },
            BuildStage::Configuring => {
                if response < 0 {
                    self.finish(response)
                } else {
                    self.finish(0)
                }
            },
            BuildStage::Done => BuildAction::Ended { code: self.code },
        }
    }

    /// Ends the build with `code` as its result.
    fn finish(&mut self, code: i32) -> (action: BuildAction)
        ensures
            *final(self) == (FilterBuild { stage: BuildStage::Done, code, ..*old(self) }),
            action@ == (BuildWork::Finish { code }),
    {
        self.stage = BuildStage::Done;
        self.code = code;
        BuildAction::Finish { code }
    }

    /// Whether the build has ended.
    pub fn is_done(&self) -> (done: bool)
        ensures
            done == (self.stage == BuildStage::Done),
    {
        match self.stage {
            BuildStage::Done => true,
            _ => false,
        }
    }

    /// What came of the build: nothing while it goes on, the chain when it
    /// ended with a configured graph, and the failure when it ended with
    /// one.
    pub open spec fn spec_outcome(&self) -> Option<Result<RotateFilter, i32>> {
        if self.stage != BuildStage::Done {
            None
        } else if self.code < 0 {
            Some(Err(self.code))
        } else {
            Some(Ok(self.filter))
        }
    }

    /// What came of the build: `None` while it goes on, the ends of the
    /// chain when it ended with a configured graph, and the negative
    /// response that ended it when it failed.
    pub fn outcome(&self) -> (outcome: Option<Result<RotateFilter, i32>>)
        ensures
            outcome == self.spec_outcome(),
    {
        match self.stage {
            BuildStage::Done => {
                if self.code < 0 {
                    Some(Err(self.code))
                } else {
                    Some(Ok(self.filter))
                }
            },
            _ => None,
        }
    }

    /// The ends of the chain to keep with the source once the build has
    /// ended: those of a chain whose graph was configured, and none of a
    /// build that failed or still goes on, so that the next picture builds
    /// the chain anew.
    pub open spec fn spec_usable(&self) -> RotateFilter {
        match self.spec_outcome() {
            Some(Ok(filter)) => filter,
            _ => RotateFilter { buffersink_set: false, buffersrc_set: false },
        }
    }

    /// The ends of the chain to keep with the source once the build has
    /// ended.
    pub fn usable(&self) -> (filter: RotateFilter)
        ensures
            filter == self.spec_usable(),
    {
        match self.outcome() {
            Some(Ok(filter)) => filter,
            _ => RotateFilter::new(),
        }
    }
}

/// A build before its first response.
pub open spec fn fresh_build(settings: FilterSettings) -> FilterBuild {
    FilterBuild {
        settings,
        stage: BuildStage::Allocating,
        filter: RotateFilter { buffersink_set: false, buffersrc_set: false },
        code: 0,
    }
}

/// The build after a run of responses, first to last.
pub open spec fn after_responses(build: FilterBuild, responses: Seq<i32>) -> FilterBuild
    decreases responses.len(),
{
    if responses.len() == 0 {
        build
    } else {
        build_plan(after_responses(build, responses.drop_last()), responses.last()).0
    }
}

/// How many responses a build at this stage can still take before it has
/// ended.
pub open spec fn steps_left(stage: BuildStage) -> nat {
    match stage {
        BuildStage::Allocating => 5,
        BuildStage::CreatingSource => 4,
        BuildStage::CreatingSink => 3,
        BuildStage::Parsing => 2,
        BuildStage::Configuring => 1,
        BuildStage::Done => 0,
    }
}

/// Every response brings a build nearer its end, none takes an end of the
/// chain away, and the settings stay. The link descriptors are freed by
/// the response that ends the build and by no other. A build that has ended
/// stays as it is.
pub proof fn lemma_build_makes_progress(build: FilterBuild, response: i32)
    ensures
        build.stage != BuildStage::Done ==> steps_left(build_plan(build, response).0.stage)
            < steps_left(build.stage),
        build.stage == BuildStage::Done ==> build_plan(build, response).0 == build,
        build.filter.buffersrc_set ==> build_plan(build, response).0.filter.buffersrc_set,
        build.filter.buffersink_set ==> build_plan(build, response).0.filter.buffersink_set,
        build_plan(build, response).0.settings == build.settings,
        build_plan(build, response).1 is Finish <==> build.stage != BuildStage::Done
            && build_plan(build, response).0.stage == BuildStage::Done,
        build_plan(build, response).1 is Ended <==> build.stage == BuildStage::Done,
{
}

/// No failure is passed over: whatever piece of work a build waits for, a
/// negative response ends it with that response as its result, which the
/// final piece of work repeats. A build ends with zero only on a response
/// to the configuring of the graph that is not negative.
pub proof fn lemma_failure_is_reported(build: FilterBuild, response: i32)
    requires
        build.stage != BuildStage::Done,
    ensures
        response < 0 ==> build_plan(build, response) == (
            FilterBuild { stage: BuildStage::Done, code: response, ..build },
            BuildWork::Finish { code: response },
        ),
        build_plan(build, response).1 == (BuildWork::Finish { code: 0 }) <==> build.stage
            == BuildStage::Configuring && response >= 0,
        build_plan(build, response).1 matches BuildWork::Finish { code } ==> code <= 0 && code
            == build_plan(build, response).0.code,
{
}

/// A build that began with the allocation has ended once it has taken as
/// many responses as it had steps left, and is that much nearer its end
/// before.
proof fn lemma_build_nears_end(start: FilterBuild, responses: Seq<i32>)
    ensures
        steps_left(after_responses(start, responses).stage) + responses.len() <= steps_left(
            start.stage,
        ) || after_responses(start, responses).stage == BuildStage::Done,
    decreases responses.len(),
{
    if responses.len() > 0 {
        lemma_build_nears_end(start, responses.drop_last());
        lemma_build_makes_progress(
            after_responses(start, responses.drop_last()),
            responses.last(),
        );
    }
}

/// A build has ended after five responses at most, whatever they are.
pub proof fn lemma_build_ends(settings: FilterSettings, responses: Seq<i32>)
    requires
        responses.len() >= 5,
    ensures
        after_responses(fresh_build(settings), responses).stage == BuildStage::Done,
{
    lemma_build_nears_end(fresh_build(settings), responses);
}

/// How often a run of responses has led to the freeing of the link
/// descriptors.
pub open spec fn releases(build: FilterBuild, responses: Seq<i32>) -> nat
    decreases responses.len(),
{
    if responses.len() == 0 {
        0
    } else {
        let before = after_responses(build, responses.drop_last());
        let earlier = releases(build, responses.drop_last());
        if build_plan(before, responses.last()).1 is Finish {
            earlier + 1
        } else {
            earlier
        }
    }
}

/// The link descriptors are freed exactly once on every path: a run of
/// responses, whatever they are, has led to their freeing once if the build
/// has ended and not at all if it still goes on.
pub proof fn lemma_links_are_released_once(settings: FilterSettings, responses: Seq<i32>)
    ensures
        releases(fresh_build(settings), responses) == (if after_responses(
            fresh_build(settings),
            responses,
        ).stage == BuildStage::Done {
            1nat
        } else {
            0nat
        }),
    decreases responses.len(),
{
    if responses.len() > 0 {
        lemma_links_are_released_once(settings, responses.drop_last());
        lemma_build_makes_progress(
            after_responses(fresh_build(settings), responses.drop_last()),
            responses.last(),
        );
    }
}

/// The first failure among five responses: the first that is negative, and
/// zero when none is.
pub open spec fn first_failure(
    allocated: i32,
    source: i32,
    sink: i32,
    parsed: i32,
    configured: i32,
) -> i32 {
    if allocated < 0 {
        allocated
    } else if source < 0 {
        source
    } else if sink < 0 {
        sink
    } else if parsed < 0 {
        parsed
    } else if configured < 0 {
        configured
    } else {
        0
    }
}

/// The build after the responses to its pieces of work, each piece being
/// answered only if the build has not ended before.
pub open spec fn built_from(
    settings: FilterSettings,
    allocated: i32,
    source: i32,
    sink: i32,
    parsed: i32,
    configured: i32,
) -> FilterBuild {
    after_responses(fresh_build(settings), seq![allocated, source, sink, parsed, configured])
}

/// The result of a build is its first failure: the build ends with the first
/// negative response among those to the allocation, the source, the sink,
/// the parsing and the configuring, and with zero only when none of them is
/// negative. The source exists when allocation and source did not fail,
/// the sink when the sink did not fail either, and the chain is usable
/// exactly when the result is zero.
pub proof fn lemma_build_result(
    settings: FilterSettings,
    allocated: i32,
    source: i32,
    sink: i32,
    parsed: i32,
    configured: i32,
)
    ensures
        ({
            let built = built_from(settings, allocated, source, sink, parsed, configured);
            let failure = first_failure(allocated, source, sink, parsed, configured);
            &&& built.stage == BuildStage::Done
            &&& built.code == failure
            &&& built.code <= 0
            &&& built.code == 0 <==> allocated >= 0 && source >= 0 && sink >= 0 && parsed >= 0
                && configured >= 0
            &&& built.filter.buffersrc_set <==> allocated >= 0 && source >= 0
            &&& built.filter.buffersink_set <==> allocated >= 0 && source >= 0 && sink >= 0
            &&& built.spec_outcome() == (if failure < 0 {
                Some(Err::<RotateFilter, i32>(failure))
            } else {
                Some(Ok::<RotateFilter, i32>(
                    RotateFilter { buffersink_set: true, buffersrc_set: true },
                ))
            })
            &&& !built.spec_usable().spec_is_unset() <==> failure == 0
        }),
{
    let start = fresh_build(settings);
    let five = seq![allocated, source, sink, parsed, configured];
    let four = seq![allocated, source, sink, parsed];
    let three = seq![allocated, source, sink];
    let two = seq![allocated, source];
    let one = seq![allocated];
    assert(five.drop_last() =~= four);
    assert(four.drop_last() =~= three);
    assert(three.drop_last() =~= two);
    assert(two.drop_last() =~= one);
    assert(one.drop_last() =~= Seq::<i32>::empty());
    assert(after_responses(start, Seq::<i32>::empty()) == start);
    assert(after_responses(start, one) == build_plan(start, allocated).0);
    assert(after_responses(start, two) == build_plan(after_responses(start, one), source).0);
    assert(after_responses(start, three) == build_plan(after_responses(start, two), sink).0);
    assert(after_responses(start, four) == build_plan(after_responses(start, three), parsed).0);
    assert(after_responses(start, five) == build_plan(
        after_responses(start, four),
        configured,
    ).0);
}

} // verus!
