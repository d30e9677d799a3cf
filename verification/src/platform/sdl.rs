//! Decisions of the SDL presenter: what an input event asks of the player,
//! how a picture's colours are converted, and where the planes of a picture
//! lie in a packed buffer.

use crate::player::Command;
use vstd::arithmetic::div_mod::lemma_fundamental_div_mod;
use vstd::arithmetic::div_mod::lemma_fundamental_div_mod_converse;
use vstd::prelude::*;

verus! {

/// An input event, as far as the player reacts to it.
#[derive(Clone, Copy, Debug, PartialEq, Eq, Structural)]
pub enum InputEvent {
    /// The window was closed.
    Quit,
    KeyEscape,
    KeyQ,
    KeySpace,
    KeyPeriod,
    KeyR,
    /// Any other event.
    Other,
}

/// What an input event leads to.
#[derive(Clone, Copy, Debug, PartialEq, Eq, Structural)]
pub struct Reaction {
    /// The command to send to the player and to carry out, if any.
    pub command: Option<Command>,
    /// Whether the event loop ends.
    pub leave: bool,
}

/// The reaction to an input event: closing the window, Escape and Q quit and
/// end the loop; the space bar toggles the pause; the period steps one
/// picture; R stops a recording that runs and starts one otherwise.
pub open spec fn spec_event_loop(event: InputEvent, is_recording: bool) -> Reaction {
    match event {
        InputEvent::Quit => Reaction { command: Some(Command::Quit), leave: true },
        InputEvent::KeyEscape => Reaction { command: Some(Command::Quit), leave: true },
        InputEvent::KeyQ => Reaction { command: Some(Command::Quit), leave: true },
        InputEvent::KeySpace => Reaction { command: Some(Command::Pause), leave: false },
        InputEvent::KeyPeriod => Reaction { command: Some(Command::Step), leave: false },
        InputEvent::KeyR => Reaction {
            command: Some(
                if is_recording {
                    Command::StopRecording
                } else {
                    Command::StartRecording
                },
            ),
            leave: false,
        },
        InputEvent::Other => Reaction { command: None, leave: false },
    }
}

/// The reaction of the event loop to one input event, while a recording
/// runs or not.
#[verifier::when_used_as_spec(spec_event_loop)]
pub fn event_loop(event: InputEvent, is_recording: bool) -> (reaction: Reaction)
    ensures
        reaction == spec_event_loop(event, is_recording),
{
    match event {
        InputEvent::Quit => Reaction { command: Some(Command::Quit), leave: true },
        InputEvent::KeyEscape => Reaction { command: Some(Command::Quit), leave: true },
        InputEvent::KeyQ => Reaction { command: Some(Command::Quit), leave: true },
        InputEvent::KeySpace => Reaction { command: Some(Command::Pause), leave: false },
        InputEvent::KeyPeriod => Reaction { command: Some(Command::Step), leave: false },
        InputEvent::KeyR => {
            if is_recording {
                Reaction { command: Some(Command::StopRecording), leave: false }
            } else {
                Reaction { command: Some(Command::StartRecording), leave: false }
            }
        },
        InputEvent::Other => Reaction { command: None, leave: false },
    }
}

/// The event loop ends exactly on the events that quit the player.
pub proof fn lemma_loop_ends_on_quit(event: InputEvent, is_recording: bool)
    ensures
        spec_event_loop(event, is_recording).leave <==> spec_event_loop(
            event,
            is_recording,
        ).command == Some(Command::Quit),
{
}

/// How the presenter converts a picture's colours for display.
#[derive(Clone, Copy, Debug, PartialEq, Eq, Structural)]
pub enum YuvConversionMode {
    Automatic,
    Jpeg,
    Bt709,
    Bt601,
}

/// The colour description of a picture, in the decoder's numbering.
#[derive(Clone, Copy, Debug, PartialEq, Eq, Structural)]
pub struct ColorInfo {
    pub format: i32,
    pub color_range: i32,
    pub colorspace: i32,
}

/// The decoder's numbers for the pixel formats, the colour range and the
/// colour standards that the conversion mode depends on.
#[derive(Clone, Copy, Debug, PartialEq, Eq, Structural)]
pub struct ColorCodes {
    pub yuv420p: i32,
    pub yuv422p: i32,
    pub uyvy422: i32,
    pub range_jpeg: i32,
    pub bt709: i32,
    pub bt470bg: i32,
    pub smpte170m: i32,
}

/// The conversion mode for a picture. Only a picture in one of the three
/// YUV formats gets a mode of its own: the full range wins, then BT.709,
/// then the two standards that BT.601 covers. Everything else, and no
/// picture at all, is left to the presenter.
pub open spec fn spec_yuv_conversion_mode(
    frame: Option<ColorInfo>,
    codes: ColorCodes,
) -> YuvConversionMode {
    match frame {
        None => YuvConversionMode::Automatic,
        Some(info) => {
            if info.format == codes.yuv420p || info.format == codes.yuv422p || info.format
                == codes.uyvy422 {
                if info.color_range == codes.range_jpeg {
                    YuvConversionMode::Jpeg
                } else if info.colorspace == codes.bt709 {
                    YuvConversionMode::Bt709
                } else if info.colorspace == codes.bt470bg || info.colorspace
                    == codes.smpte170m {
                    YuvConversionMode::Bt601
                } else {
                    YuvConversionMode::Automatic
                }
            } else {
                YuvConversionMode::Automatic
            }
        },
    }
}

/// The conversion mode to set for a picture.
pub fn yuv_conversion_mode(frame: Option<ColorInfo>, codes: &ColorCodes) -> (mode:
    YuvConversionMode)
    ensures
        mode == spec_yuv_conversion_mode(frame, *codes),
{
    match frame {
        None => YuvConversionMode::Automatic,
        Some(info) => {
            if info.format == codes.yuv420p || info.format == codes.yuv422p || info.format
                == codes.uyvy422 {
                if info.color_range == codes.range_jpeg {
                    YuvConversionMode::Jpeg
                } else if info.colorspace == codes.bt709 {
                    YuvConversionMode::Bt709
                } else if info.colorspace == codes.bt470bg || info.colorspace
                    == codes.smpte170m {
                    YuvConversionMode::Bt601
                } else {
                    YuvConversionMode::Automatic
                }
            } else {
                YuvConversionMode::Automatic
            }
        },
    }
}

/// Where the three planes of a packed 4:2:0 picture lie in its buffer.
#[derive(Clone, Copy, Debug, PartialEq, Eq, Structural)]
pub struct PlaneLayout {
    /// Bytes in the luma plane, which is also where the first chroma plane
    /// starts.
    pub luma_size: u128,
    /// Bytes in each of the two chroma planes.
    pub chroma_size: u128,
    /// Where the second chroma plane starts.
    pub second_chroma: u128,
    /// Bytes in the whole picture.
    pub total: u128,
}

/// The layout of a packed 4:2:0 picture of the given size: a full plane of
/// luma, then two planes of chroma of half the width and half the height,
/// both halves rounded down; the whole is counted as three halves of the
/// luma plane, rounded down.
pub open spec fn spec_plane_layout(width: u32, height: u32) -> PlaneLayout {
    PlaneLayout {
        luma_size: (width * height) as u128,
        chroma_size: ((width / 2) * (height / 2)) as u128,
        second_chroma: (width * height + (width / 2) * (height / 2)) as u128,
        total: (width * height * 3 / 2) as u128,
    }
}

/// The layout of a packed 4:2:0 picture of the given size.
pub fn plane_layout(width: u32, height: u32) -> (layout: PlaneLayout)
    ensures
        layout == spec_plane_layout(width, height),
        layout.second_chroma + layout.chroma_size <= layout.total,
{
    let wide: u128 = width as u128;
    let high: u128 = height as u128;
    assert(wide * high <= 0xFFFF_FFFF * 0xFFFF_FFFF) by (nonlinear_arith)
        requires
            0 <= wide <= 0xFFFF_FFFF,
            0 <= high <= 0xFFFF_FFFF,
    ;
    assert((wide / 2) * (high / 2) * 4 <= wide * high) by (nonlinear_arith)
        requires
            0 <= wide,
            0 <= high,
    ;
    let luma_size: u128 = wide * high;
    let chroma_size: u128 = (wide / 2) * (high / 2);
    PlaneLayout {
        luma_size,
        chroma_size,
        second_chroma: luma_size + chroma_size,
        total: luma_size * 3 / 2,
    }
}

/// Where the two chroma planes of a frame start, counted from the start of
/// its luma plane, when the three planes lie one behind the other: each
/// plane takes its row length times its number of rows, and a chroma plane
/// has half the rows of the luma plane, rounded down.
pub open spec fn spec_frame_plane_offsets(
    luma_linesize: u32,
    chroma_linesize: u32,
    height: u32,
) -> (u128, u128) {
    (
        (luma_linesize * height) as u128,
        (luma_linesize * height + chroma_linesize * (height / 2)) as u128,
    )
}

/// Where the two chroma planes of a frame start, counted from the start of
/// its luma plane.
pub fn frame_plane_offsets(luma_linesize: u32, chroma_linesize: u32, height: u32) -> (offsets: (
    u128,
    u128,
))
    ensures
        offsets == spec_frame_plane_offsets(luma_linesize, chroma_linesize, height),
        offsets.0 <= offsets.1,
{
    let luma: u128 = luma_linesize as u128;
    let chroma: u128 = chroma_linesize as u128;
    let rows: u128 = height as u128;
    assert(luma * rows <= 0xFFFF_FFFF * 0xFFFF_FFFF) by (nonlinear_arith)
        requires
            0 <= luma <= 0xFFFF_FFFF,
            0 <= rows <= 0xFFFF_FFFF,
    ;
    assert(0 <= chroma * (rows / 2) <= 0xFFFF_FFFF * 0xFFFF_FFFF) by (nonlinear_arith)
        requires
            0 <= chroma <= 0xFFFF_FFFF,
            0 <= rows <= 0xFFFF_FFFF,
    ;
    (luma * rows, luma * rows + chroma * (rows / 2))
}

/// The bytes that the three planes of a frame take when they lie one behind
/// the other: the start of the second chroma plane plus its size.
pub open spec fn spec_frame_size(luma_linesize: u32, chroma_linesize: u32, height: u32) -> u128 {
    (luma_linesize * height + 2 * (chroma_linesize * (height / 2))) as u128
}

/// The bytes that the three planes of a frame take when they lie one behind
/// the other. A buffer of this size holds every byte that the plane offsets
/// of `frame_plane_offsets` lead to.
pub fn frame_size(luma_linesize: u32, chroma_linesize: u32, height: u32) -> (size: u128)
    ensures
        size == spec_frame_size(luma_linesize, chroma_linesize, height),
        size == spec_frame_plane_offsets(luma_linesize, chroma_linesize, height).1
            + chroma_linesize * (height / 2),
{
    let luma: u128 = luma_linesize as u128;
    let chroma: u128 = chroma_linesize as u128;
    let rows: u128 = height as u128;
    assert(0 <= luma * rows <= 0xFFFF_FFFF * 0xFFFF_FFFF) by (nonlinear_arith)
        requires
            0 <= luma <= 0xFFFF_FFFF,
            0 <= rows <= 0xFFFF_FFFF,
    ;
    assert(0 <= chroma * (rows / 2) <= 0xFFFF_FFFF * 0xFFFF_FFFF) by (nonlinear_arith)
        requires
            0 <= chroma <= 0xFFFF_FFFF,
            0 <= rows <= 0xFFFF_FFFF,
    ;
    luma * rows + chroma * (rows / 2) + chroma * (rows / 2)
}

/// The byte of the test picture's luma plane in column `x` of row `y` of
/// picture number `i`: diagonal stripes that move with the picture number.
pub open spec fn luma_at(x: int, y: int, i: int) -> int {
    ((x + y + i) * 3) % 256
}

/// The byte of the test picture's first chroma plane in row `y` of picture
/// number `i`: a gradient down the picture that moves with the picture
/// number.
pub open spec fn blue_at(y: int, i: int) -> int {
    ((128 + y + i) * 2) % 256
}

/// The byte of the test picture's second chroma plane in column `x`: a
/// gradient across the picture.
pub open spec fn red_at(x: int) -> int {
    (64 + x) % 256
}

/// Which plane of a test picture is meant.
#[derive(Clone, Copy, Debug, PartialEq, Eq, Structural)]
pub enum Plane {
    Luma,
    Blue,
    Red,
}

/// The byte of a plane of the test picture in column `x` of row `y`.
pub open spec fn pattern_at(plane: Plane, x: int, y: int, i: int) -> int {
    match plane {
        Plane::Luma => luma_at(x, y, i),
        Plane::Blue => blue_at(y, i),
        Plane::Red => red_at(x),
    }
}

/// A plane of the test picture: `rows` rows of `linesize` bytes, of which
/// the first `width` hold the pattern and the rest are zero.
pub open spec fn pattern_plane(
    plane: Plane,
    width: int,
    rows: int,
    linesize: int,
    i: int,
) -> Seq<u8> {
    Seq::new(
        (linesize * rows) as nat,
        |k: int|
            if k % linesize < width {
                pattern_at(plane, k % linesize, k / linesize, i) as u8
            } else {
                0u8
            },
    )
}

/// The three planes of a picture.
#[derive(Debug, PartialEq, Eq)]
pub struct Planes {
    pub luma: Vec<u8>,
    pub blue: Vec<u8>,
    pub red: Vec<u8>,
}

/// The lowest byte of a number: the number modulo 256.
fn low_byte(value: i128) -> (byte: u8)
    requires
        value > i128::MIN,
    ensures
        byte == value % 256,
{
    if value >= 0 {
        (value % 256) as u8
    } else {
        let magnitude: i128 = -value;
        let rest: i128 = magnitude % 256;
        proof {
            let whole = magnitude / 256;
            lemma_fundamental_div_mod(magnitude as int, 256);
            if rest == 0 {
                assert(value == 256 * (-whole) + 0);
                lemma_fundamental_div_mod_converse(value as int, 256, -whole, 0);
            } else {
                assert(value == 256 * (-whole - 1) + (256 - rest));
                lemma_fundamental_div_mod_converse(value as int, 256, -whole - 1, 256 - rest);
            }
        }
        if rest == 0 {
            0
        } else {
            (256 - rest) as u8
        }
    }
}

/// The byte of a plane of the test picture in column `x` of row `y`.
fn pattern_byte(plane: Plane, x: usize, y: usize, i: i64) -> (byte: u8)
    ensures
        byte == pattern_at(plane, x as int, y as int, i as int),
{
    let column: i128 = x as i128;
    let row: i128 = y as i128;
    let number: i128 = i as i128;
    match plane {
        Plane::Luma => low_byte((column + row + number) * 3),
        Plane::Blue => low_byte((128 + row + number) * 2),
        Plane::Red => low_byte(64 + column),
    }
}

/// Builds one plane of the test picture.
fn fill_plane(plane: Plane, width: usize, rows: usize, linesize: usize, i: i64) -> (bytes: Vec<u8>)
    requires
        width <= linesize,
        linesize * rows <= usize::MAX,
    ensures
        bytes@ == pattern_plane(plane, width as int, rows as int, linesize as int, i as int),
{
    let mut bytes: Vec<u8> = Vec::new();
    let mut y: usize = 0;
    while y < rows
        invariant
            y <= rows,
            width <= linesize,
            linesize * rows <= usize::MAX,
            bytes@.len() == linesize * y,
            forall|k: int|
                0 <= k < bytes@.len() ==> #[trigger] bytes@[k] == pattern_plane(
                    plane,
                    width as int,
                    rows as int,
                    linesize as int,
                    i as int,
                )[k],
        decreases rows - y,
    {
        let mut x: usize = 0;
        while x < linesize
            invariant
                y < rows,
                x <= linesize,
                width <= linesize,
                linesize * rows <= usize::MAX,
                bytes@.len() == linesize * y + x,
                forall|k: int|
                    0 <= k < bytes@.len() ==> #[trigger] bytes@[k] == pattern_plane(
                        plane,
                        width as int,
                        rows as int,
                        linesize as int,
                        i as int,
                    )[k],
            decreases linesize - x,
        {
            let byte: u8 = if x < width {
                pattern_byte(plane, x, y, i)
            } else {
                0
            };
            proof {
                let k = linesize * y + x;
                lemma_fundamental_div_mod_converse(k, linesize as int, y as int, x as int);
                assert(linesize * y + x < linesize * rows) by (nonlinear_arith)
                    requires
                        x < linesize,
                        y < rows,
                ;
            }
            bytes.push(byte);
            x += 1;
        }
        assert(linesize * y + linesize == linesize * (y + 1)) by (nonlinear_arith);
        y += 1;
    }
    assert(bytes@ =~= pattern_plane(
        plane,
        width as int,
        rows as int,
        linesize as int,
        i as int,
    ));
    bytes
}

/// The test picture number `i` for a frame of the given size, whose planes
/// have rows of `luma_linesize`, `blue_linesize` and `red_linesize` bytes:
/// moving diagonal stripes of luma over two chroma gradients. The chroma
/// planes have half the width and half the height, rounded down. Bytes
/// beyond the width of a row are zero.
pub fn fill_frame_with_pattern(
    width: usize,
    height: usize,
    luma_linesize: usize,
    blue_linesize: usize,
    red_linesize: usize,
    i: i64,
) -> (planes: Planes)
    requires
        width <= luma_linesize,
        width / 2 <= blue_linesize,
        width / 2 <= red_linesize,
        luma_linesize * height <= usize::MAX,
        blue_linesize * (height / 2) <= usize::MAX,
        red_linesize * (height / 2) <= usize::MAX,
    ensures
        planes.luma@ == pattern_plane(
            Plane::Luma,
            width as int,
            height as int,
            luma_linesize as int,
            i as int,
        ),
        planes.blue@ == pattern_plane(
            Plane::Blue,
            (width / 2) as int,
            (height / 2) as int,
            blue_linesize as int,
            i as int,
        ),
        planes.red@ == pattern_plane(
            Plane::Red,
            (width / 2) as int,
            (height / 2) as int,
            red_linesize as int,
            i as int,
        ),
{
    let luma = fill_plane(Plane::Luma, width, height, luma_linesize, i);
    let blue = fill_plane(Plane::Blue, width / 2, height / 2, blue_linesize, i);
    let red = fill_plane(Plane::Red, width / 2, height / 2, red_linesize, i);
    Planes { luma, blue, red }
}

/// Whether byte `k` of a buffer belongs to the visible part of a plane that
/// starts at `start` and has `rows` rows of `linesize` bytes, of which the
/// first `width` are visible.
pub open spec fn in_plane(k: int, start: int, width: int, rows: int, linesize: int) -> bool {
    &&& start <= k < start + linesize * rows
    &&& (k - start) % linesize < width
}

/// How the three planes of a frame lie in one buffer: the luma plane first,
/// then the two chroma planes with half the rows, each plane with its own
/// row length.
#[derive(Clone, Copy, Debug, PartialEq, Eq, Structural)]
pub struct FrameShape {
    pub width: usize,
    pub height: usize,
    pub luma_linesize: usize,
    pub blue_linesize: usize,
    pub red_linesize: usize,
}

impl FrameShape {
    /// Where the first chroma plane starts.
    pub open spec fn blue_start(&self) -> int {
        self.luma_linesize * self.height
    }

    /// Where the second chroma plane starts.
    pub open spec fn red_start(&self) -> int {
        self.blue_start() + self.blue_linesize * (self.height / 2)
    }

    /// The bytes that the three planes take together.
    pub open spec fn total(&self) -> int {
        self.red_start() + self.red_linesize * (self.height / 2)
    }

    /// Whether no row is shorter than what is visible of it.
    pub open spec fn rows_fit(&self) -> bool {
        &&& self.width <= self.luma_linesize
        &&& self.width / 2 <= self.blue_linesize
        &&& self.width / 2 <= self.red_linesize
    }

    /// Whether byte `k` is visible in one of the three planes.
    pub open spec fn visible(&self, k: int) -> bool {
        ||| in_plane(k, 0, self.width as int, self.height as int, self.luma_linesize as int)
        ||| in_plane(
            k,
            self.blue_start(),
            (self.width / 2) as int,
            (self.height / 2) as int,
            self.blue_linesize as int,
        )
        ||| in_plane(
            k,
            self.red_start(),
            (self.width / 2) as int,
            (self.height / 2) as int,
            self.red_linesize as int,
        )
    }
}

/// Copies the visible part of one plane from `buffer` to the same place in
/// `frame`.
fn copy_plane(
    frame: &mut Vec<u8>,
    buffer: &Vec<u8>,
    start: usize,
    width: usize,
    rows: usize,
    linesize: usize,
)
    requires
        width <= linesize,
        start + linesize * rows <= old(frame)@.len(),
        start + linesize * rows <= buffer@.len(),
    ensures
        final(frame)@.len() == old(frame)@.len(),
        forall|k: int|
            0 <= k < old(frame)@.len() ==> #[trigger] final(frame)@[k] == (if in_plane(
                k,
                start as int,
                width as int,
                rows as int,
                linesize as int,
            ) {
                buffer@[k]
            } else {
                old(frame)@[k]
            }),
{
    let limit: usize = frame.len();
    let mut y: usize = 0;
    while y < rows
        invariant
            y <= rows,
            width <= linesize,
            frame@.len() == old(frame)@.len(),
            frame@.len() == limit,
            start + linesize * rows <= frame@.len(),
            start + linesize * rows <= buffer@.len(),
            forall|k: int|
                0 <= k < frame@.len() ==> #[trigger] frame@[k] == (if in_plane(
                    k,
                    start as int,
                    width as int,
                    y as int,
                    linesize as int,
                ) {
                    buffer@[k]
                } else {
                    old(frame)@[k]
                }),
        decreases rows - y,
    {
        assert(0 <= linesize * y && linesize * y + linesize <= linesize * rows)
            by (nonlinear_arith)
            requires
                0 <= y < rows,
                0 <= linesize,
        ;
        let row: usize = start + linesize * y;
        let ghost before = frame@;
        let mut x: usize = 0;
        while x < width
            invariant
                y < rows,
                x <= width,
                width <= linesize,
                row == start + linesize * y,
                row + linesize <= frame@.len(),
                row + linesize <= buffer@.len(),
                frame@.len() == old(frame)@.len(),
                frame@.len() == limit,
                before.len() == frame@.len(),
                forall|k: int|
                    0 <= k < frame@.len() ==> #[trigger] frame@[k] == (if row <= k < row + x {
                        buffer@[k]
                    } else {
                        before[k]
                    }),
            decreases width - x,
        {
            let byte: u8 = buffer[row + x];
            frame.set(row + x, byte);
            x += 1;
        }
        proof {
            assert forall|k: int| 0 <= k < frame@.len() implies #[trigger] frame@[k] == (
            if in_plane(k, start as int, width as int, y + 1, linesize as int) {
                buffer@[k]
            } else {
                old(frame)@[k]
            }) by {
                lemma_row_of(k, start as int, y as int, linesize as int, width as int);
            }
        }
        y += 1;
    }
}

/// A byte is visible in the first `y + 1` rows of a plane exactly when it
/// is visible in the first `y` rows or lies within the first `width` bytes
/// of row `y`.
proof fn lemma_row_of(k: int, start: int, y: int, linesize: int, width: int)
    requires
        0 <= y,
        0 <= width <= linesize,
    ensures
        in_plane(k, start, width, y + 1, linesize) <==> (in_plane(k, start, width, y, linesize)
            || start + linesize * y <= k < start + linesize * y + width),
{
    assert(linesize * (y + 1) == linesize * y + linesize) by (nonlinear_arith);
    if linesize > 0 {
        let offset = k - start;
        if start + linesize * y <= k < start + linesize * y + linesize {
            lemma_fundamental_div_mod_converse(offset, linesize, y, offset - linesize * y);
        }
    } else {
        assert(linesize * y == 0) by (nonlinear_arith)
            requires
                linesize == 0,
        ;
    }
}

/// Copies what is visible of a picture from `buffer` into `frame`, which
/// both hold the three planes in the given shape, and leaves every other
/// byte of `frame` as it was.
pub fn fill_frame_with_buffer(frame: &mut Vec<u8>, buffer: &Vec<u8>, shape: &FrameShape)
    requires
        shape.rows_fit(),
        shape.total() <= old(frame)@.len(),
        shape.total() <= buffer@.len(),
    ensures
        final(frame)@.len() == old(frame)@.len(),
        forall|k: int|
            0 <= k < old(frame)@.len() ==> #[trigger] final(frame)@[k] == (if shape.visible(k) {
                buffer@[k]
            } else {
                old(frame)@[k]
            }),
{
    let half: usize = shape.height / 2;
    let limit: usize = frame.len();
    proof {
        let luma = shape.luma_linesize * shape.height;
        let blue = shape.blue_linesize * (shape.height / 2);
        let red = shape.red_linesize * (shape.height / 2);
        assert(0 <= luma) by (nonlinear_arith)
            requires
                luma == shape.luma_linesize * shape.height,
                0 <= shape.luma_linesize,
                0 <= shape.height,
        ;
        assert(0 <= blue) by (nonlinear_arith)
            requires
                blue == shape.blue_linesize * (shape.height / 2),
                0 <= shape.blue_linesize,
                0 <= shape.height / 2,
        ;
        assert(0 <= red) by (nonlinear_arith)
            requires
                red == shape.red_linesize * (shape.height / 2),
                0 <= shape.red_linesize,
                0 <= shape.height / 2,
        ;
        assert(shape.total() == luma + blue + red);
    }
    let blue_start: usize = shape.luma_linesize * shape.height;
    let red_start: usize = blue_start + shape.blue_linesize * half;
    copy_plane(frame, buffer, 0, shape.width, shape.height, shape.luma_linesize);
    copy_plane(frame, buffer, blue_start, shape.width / 2, half, shape.blue_linesize);
    copy_plane(frame, buffer, red_start, shape.width / 2, half, shape.red_linesize);
}

} // verus!
