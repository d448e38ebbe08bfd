//! Bit-packed monochrome framebuffer for an 800x480 electronic-paper panel.
//!
//! Each byte packs 8 horizontally contiguous pixels, most significant bit
//! first: the pixel at `(x, y)` lives at bit `0x80 >> ((y*WIDTH + x) % 8)` of
//! byte `(y*WIDTH + x) / 8`. The panel consumes the buffer in exactly this
//! layout, so the packing is part of the wire format and must be bit-exact.

use vstd::prelude::*;

verus! {

/// Panel width in pixels.
pub const DISPLAY_WIDTH: u32 = 800;

/// Panel height in pixels.
pub const DISPLAY_HEIGHT: u32 = 480;

/// Length in bytes of one packed frame: one bit per pixel.
pub const BUFFER_SIZE: usize = 48000;

/// A pixel is either on (black) or off (white); the panel has no gradation.
#[derive(Clone, Copy, Debug, PartialEq, Eq, Structural)]
pub enum Color {
    On,
    Off,
}

impl Color {
    /// The byte that a whole-buffer fill with this color writes:
    /// eight pixels of the color packed into one byte.
    pub open spec fn packed_byte_spec(self) -> u8 {
        match self {
            Color::On => 0xff,
            Color::Off => 0x00,
        }
    }

    /// Eight copies of this color packed into a single byte.
    pub fn packed_byte(self) -> (r: u8)
        ensures
            r == self.packed_byte_spec(),
    {
        match self {
            Color::On => 0xff,
            Color::Off => 0x00,
        }
    }
}

/// Bounds policy for the public drawing entry point: when set, drawing
/// outside the panel area is silently dropped; when clear, it is an error.
pub struct DisplayConfig {
    pub allow_out_of_bounds_drawing: bool,
}

/// A pixel coordinate as drawing code hands it in; it may lie outside the
/// panel area, which is what the bounds policy decides over.
#[derive(Clone, Copy, Debug, PartialEq, Eq, Structural)]
pub struct Coord {
    pub x: i32,
    pub y: i32,
}

/// A draw was attempted outside the panel area while the bounds policy
/// forbids it. This is a caller contract violation, not an I/O condition;
/// callers that want the fail-fast posture abort on it.
#[derive(Clone, Copy, Debug, PartialEq, Eq, Structural)]
pub struct OutOfBoundsError;

/// True when `(x, y)` addresses a pixel of the panel.
pub open spec fn in_bounds(x: int, y: int) -> bool {
    0 <= x < DISPLAY_WIDTH && 0 <= y < DISPLAY_HEIGHT
}

/// Row-major index of the pixel `(x, y)`.
pub open spec fn pixel_index(x: int, y: int) -> int {
    y * (DISPLAY_WIDTH as int) + x
}

/// Index of the byte that holds the pixel `(x, y)`.
pub open spec fn byte_index(x: int, y: int) -> int {
    pixel_index(x, y) / 8
}

/// The single-bit mask of the pixel `(x, y)` within its byte:
/// bit 7 is the leftmost of the 8 pixels the byte packs.
pub open spec fn pixel_mask(x: int, y: int) -> u8 {
    0x80u8 >> ((pixel_index(x, y) % 8) as u8)
}

/// The color stored for pixel `(x, y)` in a packed buffer.
pub open spec fn pixel_at(buf: Seq<u8>, x: int, y: int) -> Color {
    if buf[byte_index(x, y)] & pixel_mask(x, y) != 0 {
        Color::On
    } else {
        Color::Off
    }
}

/// The buffer `buf` with the single bit of pixel `(x, y)` set or cleared
/// according to `c`; every other bit is untouched.
pub open spec fn written(buf: Seq<u8>, x: int, y: int, c: Color) -> Seq<u8> {
    let b = buf[byte_index(x, y)];
    let nb = match c {
        Color::On => b | pixel_mask(x, y),
        Color::Off => b & !pixel_mask(x, y),
    };
    buf.update(byte_index(x, y), nb)
}

/// Setting the bit of a pixel makes that bit read back as set, and clearing
/// it makes it read back as clear, whatever the byte held before.
proof fn lemma_mask_write_read(b: u8, s: u8)
    by (bit_vector)
    requires
        s < 8,
    ensures
        (b | (0x80u8 >> s)) & (0x80u8 >> s) != 0,
        (b & !(0x80u8 >> s)) & (0x80u8 >> s) == 0,
{
}

/// Writing through one single-bit mask leaves every differently positioned
/// bit of the byte as it was.
proof fn lemma_mask_write_other(b: u8, s1: u8, s2: u8)
    by (bit_vector)
    requires
        s1 < 8,
        s2 < 8,
        s1 != s2,
    ensures
        (b | (0x80u8 >> s1)) & (0x80u8 >> s2) == b & (0x80u8 >> s2),
        (b & !(0x80u8 >> s1)) & (0x80u8 >> s2) == b & (0x80u8 >> s2),
{
}

/// Distinct in-bounds pixels have distinct row-major indices.
pub proof fn lemma_pixel_index_injective(x1: int, y1: int, x2: int, y2: int)
    requires
        in_bounds(x1, y1),
        in_bounds(x2, y2),
        pixel_index(x1, y1) == pixel_index(x2, y2),
    ensures
        x1 == x2 && y1 == y2,
{
    if y1 < y2 {
        assert(pixel_index(x1, y1) < pixel_index(x2, y2));
    }
    if y2 < y1 {
        assert(pixel_index(x2, y2) < pixel_index(x1, y1));
    }
}

/// Packing round trip: writing a pixel stores exactly that color at that
/// coordinate and leaves every other in-bounds pixel unchanged.
pub proof fn lemma_written_round_trip(buf: Seq<u8>, x: int, y: int, c: Color)
    requires
        buf.len() == BUFFER_SIZE,
        in_bounds(x, y),
    ensures
        pixel_at(written(buf, x, y, c), x, y) == c,
        forall|i: int, j: int|
            in_bounds(i, j) && !(i == x && j == y) ==> #[trigger] pixel_at(written(buf, x, y, c), i, j)
                == pixel_at(buf, i, j),
{
    let idx = pixel_index(x, y);
    let s = (idx % 8) as u8;
    let b = buf[byte_index(x, y)];
    assert(0 <= idx < 384000);
    lemma_mask_write_read(b, s);
    assert forall|i: int, j: int|
        in_bounds(i, j) && !(i == x && j == y) implies pixel_at(written(buf, x, y, c), i, j)
        == pixel_at(buf, i, j) by {
        let idx2 = pixel_index(i, j);
        let s2 = (idx2 % 8) as u8;
        assert(0 <= idx2 < 384000);
        if byte_index(i, j) == byte_index(x, y) {
            assert(idx != idx2) by {
                if idx == idx2 {
                    lemma_pixel_index_injective(x, y, i, j);
                }
            }
            assert(s != s2) by {
                assert(idx == 8 * byte_index(x, y) + idx % 8);
                assert(idx2 == 8 * byte_index(i, j) + idx2 % 8);
            }
            lemma_mask_write_other(b, s, s2);
        }
    }
}

/// Whether the coordinate addresses a pixel of the panel.
pub open spec fn coord_in_bounds(p: Coord) -> bool {
    in_bounds(p.x as int, p.y as int)
}

/// The buffer after writing the first `n` of the given points, in order.
pub open spec fn written_all(buf: Seq<u8>, pts: Seq<Coord>, c: Color, n: int) -> Seq<u8>
    decreases n,
{
    if n <= 0 {
        buf
    } else {
        written(written_all(buf, pts, c, n - 1), pts[n - 1].x as int, pts[n - 1].y as int, c)
    }
}

/// Length of the longest prefix of the points that lies entirely inside the
/// panel area: batch drawing stops at the first violation.
pub open spec fn in_bounds_prefix_len(pts: Seq<Coord>) -> int
    decreases pts.len(),
{
    if pts.len() == 0 {
        0
    } else if !coord_in_bounds(pts[0]) {
        0
    } else {
        1 + in_bounds_prefix_len(pts.drop_first())
    }
}

/// The in-bounds prefix length is exactly the index of the first
/// out-of-bounds point (or the whole length when there is none).
pub proof fn lemma_in_bounds_prefix_len(pts: Seq<Coord>, k: int)
    requires
        0 <= k <= pts.len(),
        forall|m: int| 0 <= m < k ==> coord_in_bounds(#[trigger] pts[m]),
        k < pts.len() ==> !coord_in_bounds(pts[k]),
    ensures
        in_bounds_prefix_len(pts) == k,
    decreases k,
{
    if k == 0 {
    } else {
        assert(coord_in_bounds(pts[0]));
        let rest = pts.drop_first();
        assert(forall|m: int| 0 <= m < k - 1 ==> coord_in_bounds(#[trigger] rest[m]));
        lemma_in_bounds_prefix_len(rest, k - 1);
    }
}

/// The byte sequence of a buffer filled with a single color:
/// every byte is the packed form of that color.
pub open spec fn cleared_buffer(c: Color) -> Seq<u8> {
    Seq::new(BUFFER_SIZE as nat, |i: int| c.packed_byte_spec())
}

/// What clearing leaves behind: the packed form of the color in every byte,
/// whatever the buffer held before.
pub open spec fn clear_spec(buf: Seq<u8>, c: Color) -> Seq<u8> {
    cleared_buffer(c)
}

/// Clear idempotence: clearing an already cleared buffer changes nothing,
/// and a clear to off leaves every byte zero.
pub proof fn lemma_clear_idempotent(buf: Seq<u8>, c: Color)
    ensures
        clear_spec(clear_spec(buf, c), c) == clear_spec(buf, c),
        forall|i: int| 0 <= i < BUFFER_SIZE ==> #[trigger] clear_spec(buf, Color::Off)[i] == 0x00,
{
}

/// In a buffer filled with one color, every pixel reads as that color.
pub proof fn lemma_cleared_buffer_pixels(c: Color, x: int, y: int)
    requires
        in_bounds(x, y),
    ensures
        pixel_at(cleared_buffer(c), x, y) == c,
{
    let idx = pixel_index(x, y);
    let s = (idx % 8) as u8;
    assert(0 <= idx < 384000);
    assert(0xffu8 & (0x80u8 >> s) != 0 && 0x00u8 & (0x80u8 >> s) == 0) by (bit_vector)
        requires
            s < 8,
    ;
}

/// Bit-order exactness: when the eight pixels at the start of a row
/// alternate on, off, on, off, ... from `x = 0`, the byte that packs them
/// is exactly 0b10101010 — bit 7 is the leftmost pixel.
pub proof fn lemma_alternating_byte(buf: Seq<u8>, y: int)
    requires
        buf.len() == BUFFER_SIZE,
        0 <= y < DISPLAY_HEIGHT,
        forall|x: int|
            0 <= x < 8 ==> pixel_at(buf, x, y) == (if x % 2 == 0 {
                Color::On
            } else {
                Color::Off
            }),
    ensures
        buf[byte_index(0, y)] == 0xaau8,
{
    let b = buf[y * 100];
    assert forall|x: int| 0 <= x < 8 implies byte_index(x, y) == y * 100 && pixel_index(x, y) % 8
        == x && pixel_mask(x, y) == 0x80u8 >> (x as u8) by {
        assert(pixel_index(x, y) == 8 * (y * 100) + x);
    }
    assert(b & (0x80u8 >> 0u8) != 0) by {
        assert(pixel_at(buf, 0, y) == Color::On);
    }
    assert(b & (0x80u8 >> 1u8) == 0) by {
        assert(pixel_at(buf, 1, y) == Color::Off);
    }
    assert(b & (0x80u8 >> 2u8) != 0) by {
        assert(pixel_at(buf, 2, y) == Color::On);
    }
    assert(b & (0x80u8 >> 3u8) == 0) by {
        assert(pixel_at(buf, 3, y) == Color::Off);
    }
    assert(b & (0x80u8 >> 4u8) != 0) by {
        assert(pixel_at(buf, 4, y) == Color::On);
    }
    assert(b & (0x80u8 >> 5u8) == 0) by {
        assert(pixel_at(buf, 5, y) == Color::Off);
    }
    assert(b & (0x80u8 >> 6u8) != 0) by {
        assert(pixel_at(buf, 6, y) == Color::On);
    }
    assert(b & (0x80u8 >> 7u8) == 0) by {
        assert(pixel_at(buf, 7, y) == Color::Off);
    }
    assert(b == 0xaau8) by (bit_vector)
        requires
            b & (0x80u8 >> 0u8) != 0,
            b & (0x80u8 >> 1u8) == 0,
            b & (0x80u8 >> 2u8) != 0,
            b & (0x80u8 >> 3u8) == 0,
            b & (0x80u8 >> 4u8) != 0,
            b & (0x80u8 >> 5u8) == 0,
            b & (0x80u8 >> 6u8) != 0,
            b & (0x80u8 >> 7u8) == 0,
    ;
}

/// An owned, fixed-length packed pixel store together with its bounds policy.
pub struct Framebuffer {
    pixels: Vec<u8>,
    config: DisplayConfig,
}

impl Framebuffer {
    /// The packed bytes, as a mathematical sequence.
    pub closed spec fn view(&self) -> Seq<u8> {
        self.pixels@
    }

    /// The configured bounds policy.
    pub closed spec fn spec_allow_out_of_bounds(&self) -> bool {
        self.config.allow_out_of_bounds_drawing
    }

    /// A framebuffer always holds exactly one packed frame.
    pub open spec fn wf(&self) -> bool {
        self@.len() == BUFFER_SIZE
    }

    /// Allocates a buffer with every pixel `Off`.
    pub fn new(config: DisplayConfig) -> (fb: Framebuffer)
        ensures
            fb.wf(),
            fb@ == Seq::new(BUFFER_SIZE as nat, |i: int| 0u8),
            fb.spec_allow_out_of_bounds() == config.allow_out_of_bounds_drawing,
    {
        let mut pixels: Vec<u8> = Vec::new();
        let mut i: usize = 0;
        while i < BUFFER_SIZE
            invariant
                i <= BUFFER_SIZE,
                pixels@.len() == i,
                forall|j: int| 0 <= j < i ==> pixels@[j] == 0u8,
            decreases BUFFER_SIZE - i,
        {
            pixels.push(0u8);
            i = i + 1;
        }
        proof {
            assert(pixels@ =~= Seq::new(BUFFER_SIZE as nat, |i: int| 0u8));
        }
        Framebuffer { pixels, config }
    }

    /// Whether out-of-bounds draws are dropped (true) or rejected (false).
    pub fn allow_out_of_bounds_drawing(&self) -> (r: bool)
        ensures
            r == self.spec_allow_out_of_bounds(),
    {
        self.config.allow_out_of_bounds_drawing
    }

    /// The packed frame bytes, read-only: `BUFFER_SIZE` bytes, row-major,
    /// most significant bit first within each byte.
    pub fn as_bytes(&self) -> (r: &[u8])
        ensures
            r@ == self@,
    {
        self.pixels.as_slice()
    }

    /// The packed frame bytes as the owned vector, read-only.
    pub fn as_vec(&self) -> (r: &Vec<u8>)
        ensures
            r@ == self@,
    {
        &self.pixels
    }

    /// Writes the addressed bit with no bounds check; callers must have
    /// validated the coordinate.
    pub fn set_pixel_unchecked(&mut self, x: i32, y: i32, color: Color)
        requires
            old(self).wf(),
            in_bounds(x as int, y as int),
        ensures
            final(self).wf(),
            final(self)@ == written(old(self)@, x as int, y as int, color),
            final(self).spec_allow_out_of_bounds() == old(self).spec_allow_out_of_bounds(),
            pixel_at(final(self)@, x as int, y as int) == color,
            forall|i: int, j: int|
                in_bounds(i, j) && !(i == x && j == y) ==> #[trigger] pixel_at(final(self)@, i, j)
                    == pixel_at(old(self)@, i, j),
    {
        let index: usize = (y as usize) * (DISPLAY_WIDTH as usize) + (x as usize);
        let byte_i: usize = index / 8;
        let bit: u8 = (index % 8) as u8;
        let mask: u8 = 0x80u8 >> bit;
        let b: u8 = self.pixels[byte_i];
        let nb: u8 = match color {
            Color::On => b | mask,
            Color::Off => b & !mask,
        };
        self.pixels[byte_i] = nb;
        proof {
            assert(index == pixel_index(x as int, y as int));
            assert(self@ =~= written(old(self)@, x as int, y as int, color));
            lemma_written_round_trip(old(self)@, x as int, y as int, color);
        }
    }

    /// Reads the addressed bit; the caller must have validated the bounds.
    pub fn get_pixel(&self, x: i32, y: i32) -> (c: Color)
        requires
            self.wf(),
            in_bounds(x as int, y as int),
        ensures
            c == pixel_at(self@, x as int, y as int),
    {
        let index: usize = (y as usize) * (DISPLAY_WIDTH as usize) + (x as usize);
        let byte_i: usize = index / 8;
        let bit: u8 = (index % 8) as u8;
        let mask: u8 = 0x80u8 >> bit;
        proof {
            assert(index == pixel_index(x as int, y as int));
        }
        if self.pixels[byte_i] & mask != 0 {
            Color::On
        } else {
            Color::Off
        }
    }

    /// Entry point for internal callers that have already range-checked the
    /// geometry: the coordinate must be inside the panel area.
    pub fn set_pixel(&mut self, x: i32, y: i32, color: Color)
        requires
            old(self).wf(),
            in_bounds(x as int, y as int),
        ensures
            final(self).wf(),
            final(self)@ == written(old(self)@, x as int, y as int, color),
            final(self).spec_allow_out_of_bounds() == old(self).spec_allow_out_of_bounds(),
            pixel_at(final(self)@, x as int, y as int) == color,
            forall|i: int, j: int|
                in_bounds(i, j) && !(i == x && j == y) ==> #[trigger] pixel_at(final(self)@, i, j)
                    == pixel_at(old(self)@, i, j),
    {
        self.set_pixel_unchecked(x, y, color);
    }

    /// Public drawing entry point: an in-bounds draw always writes the pixel;
    /// an out-of-bounds draw is dropped under the permissive policy and
    /// rejected, with the buffer untouched, under the strict one.
    pub fn draw_pixel(&mut self, x: i32, y: i32, color: Color) -> (r: Result<(), OutOfBoundsError>)
        requires
            old(self).wf(),
        ensures
            final(self).wf(),
            final(self).spec_allow_out_of_bounds() == old(self).spec_allow_out_of_bounds(),
            in_bounds(x as int, y as int) ==> r is Ok && final(self)@ == written(
                old(self)@,
                x as int,
                y as int,
                color,
            ),
            !in_bounds(x as int, y as int) ==> final(self)@ == old(self)@,
            r is Err <==> !in_bounds(x as int, y as int) && !old(self).spec_allow_out_of_bounds(),
    {
        if x >= 0 && y >= 0 && x < DISPLAY_WIDTH as i32 && y < DISPLAY_HEIGHT as i32 {
            self.set_pixel_unchecked(x, y, color);
            Ok(())
        } else if self.config.allow_out_of_bounds_drawing {
            Ok(())
        } else {
            Err(OutOfBoundsError)
        }
    }

    /// Applies `set_pixel` to each point in order. There is no atomicity
    /// across the batch: on the first out-of-bounds point the error surfaces
    /// at once and the points before it stay written.
    pub fn set_pixels(&mut self, points: &Vec<Coord>, color: Color) -> (r: Result<
        (),
        OutOfBoundsError,
    >)
        requires
            old(self).wf(),
        ensures
            final(self).wf(),
            final(self).spec_allow_out_of_bounds() == old(self).spec_allow_out_of_bounds(),
            r is Ok <==> in_bounds_prefix_len(points@) == points@.len(),
            final(self)@ == written_all(old(self)@, points@, color, in_bounds_prefix_len(points@)),
    {
        let ghost orig = *old(self);
        let n = points.len();
        let mut i: usize = 0;
        while i < n
            invariant
                self.wf(),
                n == points@.len(),
                i <= n,
                forall|m: int| 0 <= m < i ==> coord_in_bounds(#[trigger] points@[m]),
                self@ == written_all(orig@, points@, color, i as int),
                self.spec_allow_out_of_bounds() == orig.spec_allow_out_of_bounds(),
                orig == *old(self),
            decreases n - i,
        {
            let p = points[i];
            if !(p.x >= 0 && p.y >= 0 && p.x < DISPLAY_WIDTH as i32 && p.y < DISPLAY_HEIGHT
                as i32) {
                proof {
                    lemma_in_bounds_prefix_len(points@, i as int);
                }
                return Err(OutOfBoundsError);
            }
            self.set_pixel(p.x, p.y, color);
            i = i + 1;
        }
        proof {
            lemma_in_bounds_prefix_len(points@, n as int);
        }
        Ok(())
    }

    /// Bulk-overwrites every byte with the packed form of one color: the fast
    /// path, not a per-pixel loop. The result depends only on the color, so
    /// clearing twice is the same as clearing once.
    pub fn clear(&mut self, color: Color)
        requires
            old(self).wf(),
        ensures
            final(self).wf(),
            final(self).spec_allow_out_of_bounds() == old(self).spec_allow_out_of_bounds(),
            final(self)@ == clear_spec(old(self)@, color),
            forall|i: int, j: int| in_bounds(i, j) ==> #[trigger] pixel_at(final(self)@, i, j) == color,
    {
        let fill = color.packed_byte();
        let mut i: usize = 0;
        while i < BUFFER_SIZE
            invariant
                self.wf(),
                i <= BUFFER_SIZE,
                forall|j: int| 0 <= j < i ==> self@[j] == color.packed_byte_spec(),
                self.spec_allow_out_of_bounds() == old(self).spec_allow_out_of_bounds(),
                fill == color.packed_byte_spec(),
            decreases BUFFER_SIZE - i,
        {
            self.pixels[i] = fill;
            i = i + 1;
        }
        proof {
            assert(self@ =~= cleared_buffer(color));
            assert forall|x: int, y: int| in_bounds(x, y) implies pixel_at(self@, x, y)
                == color by {
                lemma_cleared_buffer_pixels(color, x, y);
            }
        }
    }
}

} // verus!
