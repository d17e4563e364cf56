use vstd::prelude::*;

verus! {

/// Columns and rows of the character buffer.
pub const CHAR_BUF_WIDTH: usize = 80;

pub const CHAR_BUF_HEIGHT: usize = 60;

/// The seven-segment pattern of a decimal digit (bit 0 is segment a).
pub open spec fn segments_of(digit: nat) -> u8 {
    if digit == 0 {
        0x3f
    } else if digit == 1 {
        0x06
    } else if digit == 2 {
        0x5b
    } else if digit == 3 {
        0x4f
    } else if digit == 4 {
        0x66
    } else if digit == 5 {
        0x6d
    } else if digit == 6 {
        0x7d
    } else if digit == 7 {
        0x07
    } else if digit == 8 {
        0x7f
    } else {
        0x6f
    }
}

/// The seven-segment pattern of a decimal digit.
pub fn digit_to_hex(digit: u8) -> (r: u8)
    requires
        digit <= 9,
    ensures
        r == segments_of(digit as nat),
{
    match digit {
        0 => 0x3f,
        1 => 0x06,
        2 => 0x5b,
        3 => 0x4f,
        4 => 0x66,
        5 => 0x6d,
        6 => 0x7d,
        7 => 0x07,
        8 => 0x7f,
        _ => 0x6f,
    }
}

/// The six display digits that show an elapsed time as `m ss`, left digits
/// blank.
pub fn time_digits(min: u8, sec: u8) -> (r: [u8; 6])
    requires
        min <= 9,
        sec < 60,
    ensures
        r@ == seq![
            0u8,
            0u8,
            0u8,
            segments_of(min as nat),
            segments_of(sec as nat / 10),
            segments_of(sec as nat % 10),
        ],
{
    let r = [0, 0, 0, digit_to_hex(min), digit_to_hex(sec / 10), digit_to_hex(sec % 10)];
    assert(r@ =~= seq![
        0u8,
        0u8,
        0u8,
        segments_of(min as nat),
        segments_of(sec as nat / 10),
        segments_of(sec as nat % 10),
    ]);
    r
}

/// The six display digits that show a single countdown digit on the right.
pub fn countdown_digits(n: u8) -> (r: [u8; 6])
    requires
        n <= 9,
    ensures
        r@ == seq![0u8, 0u8, 0u8, 0u8, 0u8, segments_of(n as nat)],
{
    let r = [0, 0, 0, 0, 0, digit_to_hex(n)];
    assert(r@ =~= seq![0u8, 0u8, 0u8, 0u8, 0u8, segments_of(n as nat)]);
    r
}

/// The six display digits that show `10`.
pub fn countdown_ten() -> (r: [u8; 6])
    ensures
        r@ == seq![0u8, 0u8, 0u8, 0u8, segments_of(1), segments_of(0)],
{
    let r = [0, 0, 0, 0, digit_to_hex(1), digit_to_hex(0)];
    assert(r@ =~= seq![0u8, 0u8, 0u8, 0u8, segments_of(1), segments_of(0)]);
    r
}

/// The register words that the six digits are written as: digits 2 to 5 in
/// the low word, digits 0 and 1 in the high word, big-endian.
pub fn hex_words(data: [u8; 6]) -> (r: (u32, u32))
    ensures
        r.0 == data@[2] as int * 0x100_0000 + data@[3] as int * 0x1_0000 + data@[4] as int * 0x100
            + data@[5] as int,
        r.1 == data@[0] as int * 0x100 + data@[1] as int,
{
    let low = (data[2] as u32) * 0x100_0000 + (data[3] as u32) * 0x1_0000 + (data[4] as u32) * 0x100
        + data[5] as u32;
    let high = (data[0] as u32) * 0x100 + data[1] as u32;
    (low, high)
}

/// Which of four keys went from released to pressed between two reads.
pub open spec fn key_edge(prev: u8, cur: u8, i: u8) -> bool {
    (!prev & cur) >> i & 1 == 1
}

/// Reports the keys newly pressed since the previous read.
pub struct KeyEdges {
    pub prev: u8,
}

impl KeyEdges {
    pub fn new() -> (r: Self)
        ensures
            r.prev == 0,
    {
        KeyEdges { prev: 0 }
    }

    /// Takes the current key register; gives for each of the four keys
    /// whether it went down since the previous read.
    pub fn update(&mut self, cur: u8) -> (r: [bool; 4])
        ensures
            final(self).prev == cur,
            forall|i: int| 0 <= i < 4 ==> r@[i] == key_edge(old(self).prev, cur, i as u8),
    {
        let delta = !self.prev & cur;
        let ghost prev = self.prev;
        self.prev = cur;
        let r = [delta & 1 != 0, delta & 2 != 0, delta & 4 != 0, delta & 8 != 0];
        assert(delta & 1u8 != 0 <==> delta >> 0u8 & 1u8 == 1) by (bit_vector);
        assert(delta & 2u8 != 0 <==> delta >> 1u8 & 1u8 == 1) by (bit_vector);
        assert(delta & 4u8 != 0 <==> delta >> 2u8 & 1u8 == 1) by (bit_vector);
        assert(delta & 8u8 != 0 <==> delta >> 3u8 & 1u8 == 1) by (bit_vector);
        assert forall|i: int| 0 <= i < 4 implies r@[i] == key_edge(prev, cur, i as u8) by {
            if i == 0 {
            } else if i == 1 {
            } else if i == 2 {
            } else {
            }
        }
        r
    }
}

/// The milliseconds between frame `f` and frame `f + 1` when `fps` frames
/// are spread evenly over a second.
pub open spec fn frame_gap_ms(fps: int, f: int) -> int {
    (f + 1) * 1000 / fps - f * 1000 / fps
}

pub open spec fn sum_gaps(fps: int, n: nat) -> int
    decreases n,
{
    if n == 0 {
        0
    } else {
        sum_gaps(fps, (n - 1) as nat) + frame_gap_ms(fps, n - 1)
    }
}

/// Paces frames at a fixed rate, spreading the rounding of the milliseconds
/// over each second.
pub struct FrameClock {
    pub fps: u32,
    pub frame: u32,
}

impl FrameClock {
    pub fn new(fps: u32) -> (r: Self)
        requires
            fps > 0,
        ensures
            r.fps == fps,
            r.frame == 0,
    {
        FrameClock { fps, frame: 0 }
    }

    /// The wait before the next frame; `late` says that the previous
    /// deadline has passed, which restarts the second.
    pub fn tick(&mut self, late: bool) -> (r: u64)
        requires
            old(self).fps > 0,
            old(self).frame < old(self).fps,
        ensures
            final(self).fps == old(self).fps,
            final(self).frame < final(self).fps,
            ({
                let f = if late {
                    0
                } else {
                    old(self).frame
                };
                &&& r == frame_gap_ms(old(self).fps as int, f as int)
                &&& final(self).frame == (f + 1) % (old(self).fps as int)
            }),
    {
        if late {
            self.frame = 0;
        }
        let f = self.frame as u64;
        let fps = self.fps as u64;
        assert((f as int + 1) * 1000 / (fps as int) >= (f as int) * 1000 / (fps as int))
            by (nonlinear_arith)
            requires
                fps > 0,
        ;
        assert((f as int + 1) * 1000 <= 1000 * 0x1_0000_0000) by (nonlinear_arith)
            requires
                f < 0x1_0000_0000,
        ;
        let r = (f + 1) * 1000 / fps - f * 1000 / fps;
        assert(r == frame_gap_ms(fps as int, f as int));
        self.frame = self.frame + 1;
        if self.frame == self.fps {
            self.frame = 0;
            assert((f + 1) as int % (fps as int) == 0) by (nonlinear_arith)
                requires
                    f + 1 == fps,
                    fps > 0,
            ;
        } else {
            assert((f + 1) as int % (fps as int) == f + 1) by (nonlinear_arith)
                requires
                    f + 1 < fps,
            ;
        }
        r
    }
}

/// Over one second the waits between frames add up to 1000 ms.
pub proof fn lemma_second_adds_up(fps: nat)
    requires
        fps > 0,
    ensures
        sum_gaps(fps as int, fps) == 1000,
{
    let d = fps as int;
    assert(d * 1000 / d == 1000) by (nonlinear_arith)
        requires
            d > 0,
    ;
    lemma_sum_gaps(d, fps);
}

proof fn lemma_sum_gaps(fps: int, n: nat)
    requires
        fps > 0,
    ensures
        sum_gaps(fps, n) == (n as int) * 1000 / fps,
    decreases n,
{
    if n > 0 {
        lemma_sum_gaps(fps, (n - 1) as nat);
    }
}

/// Byte offset of pixel `(x, y)` in a pixel buffer: rows of 512 two-byte
/// pixels.
pub fn pixel_offset(x: usize, y: usize) -> (r: usize)
    requires
        x < 320,
        y < 240,
    ensures
        r == 2 * x + 1024 * y,
{
    assert((x & 0x1FF) << 1usize | (y & 0xFF) << 10usize == 2 * x + 1024 * y) by (bit_vector)
        requires
            x < 320,
            y < 240,
    ;
    (x & 0x1FF) << 1usize | (y & 0xFF) << 10usize
}

/// Offset of character cell `(x, y)` in the character buffer: rows of 128.
pub fn char_offset(x: usize, y: usize) -> (r: usize)
    requires
        x < CHAR_BUF_WIDTH,
        y < CHAR_BUF_HEIGHT,
    ensures
        r == x + 128 * y,
{
    assert((x & 0x7F) | (y & 0x3F) << 7usize == x + 128 * y) by (bit_vector)
        requires
            x < 80,
            y < 60,
    ;
    (x & 0x7F) | (y & 0x3F) << 7usize
}

/// The cells that text written from `(x, y)` fills, one per byte: left to
/// right, wrapping to the next row and from the last row to the first. The
/// start is first clamped into the buffer.
pub fn text_cells(x: usize, y: usize, len: usize) -> (r: Vec<(usize, usize)>)
    ensures
        r@.len() == len,
        forall|i: int|
            0 <= i < len ==> {
                let start = (if x < 80 {
                    x as int
                } else {
                    79
                }) + 80 * (if y < 60 {
                    y as int
                } else {
                    59
                });
                let cell = (start + i) % 4800;
                #[trigger] r@[i] == ((cell % 80) as usize, (cell / 80) as usize)
            },
{
    let mut cx: usize = if x < CHAR_BUF_WIDTH {
        x
    } else {
        CHAR_BUF_WIDTH - 1
    };
    let mut cy: usize = if y < CHAR_BUF_HEIGHT {
        y
    } else {
        CHAR_BUF_HEIGHT - 1
    };
    let ghost start = cx + 80 * cy;
    let mut out: Vec<(usize, usize)> = Vec::new();
    let mut i: usize = 0;
    while i < len
        invariant
            i <= len,
            cx < 80,
            cy < 60,
            start < 4800,
            out@.len() == i,
            (cx + 80 * cy) == (start + i) % 4800,
            forall|j: int|
                0 <= j < i ==> #[trigger] out@[j] == ((((start + j) % 4800) % 80) as usize, (((
                start + j) % 4800) / 80) as usize),
        decreases len - i,
    {
        assert(cx as int == ((start + i) % 4800) % 80 && cy as int == ((start + i) % 4800) / 80)
            by (nonlinear_arith)
            requires
                cx < 80,
                cx + 80 * cy == (start + i) % 4800,
        ;
        out.push((cx, cy));
        cx = cx + 1;
        if cx == CHAR_BUF_WIDTH {
            cx = 0;
            cy = cy + 1;
        }
        if cy == CHAR_BUF_HEIGHT {
            cy = 0;
        }
        assert(cx + 80 * cy == (start + i + 1) % 4800) by (nonlinear_arith)
            requires
                cx + 80 * cy == (if (start + i) % 4800 + 1 == 4800 {
                    0
                } else {
                    (start + i) % 4800 + 1
                }),
        ;
        i = i + 1;
    }
    out
}

} // verus!
