use vstd::prelude::*;

use crate::messages::Frame;

verus! {

/// Width of a camera frame and of the display, in pixels.
pub const IMAGE_WIDTH: usize = 320;

/// Height of a camera frame and of the display, in pixels.
pub const IMAGE_HEIGHT: usize = 240;

/// Bytes of one camera frame: two per pixel.
pub const IMAGE_SIZE: usize = 153600;

/// The red field (5 bits) of an RGB565 value.
pub open spec fn red5(c: nat) -> nat {
    (c / 2048) % 32
}

/// The green field (6 bits) of an RGB565 value.
pub open spec fn green6(c: nat) -> nat {
    (c / 32) % 64
}

/// The blue field (5 bits) of an RGB565 value.
pub open spec fn blue5(c: nat) -> nat {
    c % 32
}

pub open spec fn widen5(v: nat) -> nat {
    v * 255 / 31
}

pub open spec fn widen6(v: nat) -> nat {
    v * 255 / 63
}

pub open spec fn narrow5(v: nat) -> nat {
    (v + 1) * 31 / 255
}

pub open spec fn narrow6(v: nat) -> nat {
    (v + 1) * 63 / 255
}

pub open spec fn pack565(r: nat, g: nat, b: nat) -> nat {
    r * 2048 + g * 32 + b
}

/// The RGB565 value stored little-endian at pixel `p` of a frame.
pub open spec fn pixel_at(bytes: Seq<u8>, p: int) -> nat {
    bytes[2 * p] as nat + 256 * (bytes[2 * p + 1] as nat)
}

/// The RGB565 pixels of a frame; a trailing odd byte is no pixel.
pub open spec fn pixels_of(bytes: Seq<u8>) -> Seq<nat> {
    Seq::new((bytes.len() / 2) as nat, |p: int| pixel_at(bytes, p))
}

/// Channel `k` (red, green, blue) of an RGB565 value widened to eight bits.
pub open spec fn channel888(c: nat, k: int) -> nat {
    if k == 0 {
        widen5(red5(c))
    } else if k == 1 {
        widen6(green6(c))
    } else {
        widen5(blue5(c))
    }
}

/// A frame decoded to RGB888: three bytes per pixel, row-major.
pub open spec fn rgb888_of(bytes: Seq<u8>) -> Seq<nat> {
    Seq::new(3 * (bytes.len() / 2) as nat, |j: int| channel888(pixel_at(bytes, j / 3), j % 3))
}

/// RGB888 bytes, three per pixel, packed back to RGB565 with the same
/// quantization as `rgb565_of_rgb888`.
pub open spec fn rgb565_of(rgb: Seq<nat>) -> Seq<nat> {
    Seq::new(
        rgb.len() / 3,
        |p: int| pack565(narrow5(rgb[3 * p]), narrow6(rgb[3 * p + 1]), narrow5(rgb[3 * p + 2])),
    )
}

/// Relies on `rgb565::Rgb565::from_rgb565_le` and `to_rgb888_components`:
/// each field of the little-endian value is widened as `v * 255 / max`.
#[verifier::external_body]
fn rgb888_of_le(lo: u8, hi: u8) -> (r: [u8; 3])
    ensures
        r@[0] as nat == widen5(red5(lo as nat + 256 * (hi as nat))),
        r@[1] as nat == widen6(green6(lo as nat + 256 * (hi as nat))),
        r@[2] as nat == widen5(blue5(lo as nat + 256 * (hi as nat))),
{
    rgb565::Rgb565::from_rgb565_le([lo, hi]).to_rgb888_components()
}

/// Relies on `rgb565::Rgb565::from_rgb888_components` and `to_rgb565`: each
/// channel is narrowed as `(v + 1) * max / 255` and the fields are packed.
#[verifier::external_body]
fn rgb565_of_rgb888(r: u8, g: u8, b: u8) -> (c: u16)
    ensures
        c as nat == pack565(narrow5(r as nat), narrow6(g as nat), narrow5(b as nat)),
{
    rgb565::Rgb565::from_rgb888_components(r, g, b).to_rgb565()
}

/// Decodes little-endian RGB565 pixels to RGB888 bytes; a trailing odd byte
/// is no pixel.
pub fn decode_rgb565(bytes: &Vec<u8>) -> (r: Vec<u8>)
    ensures
        r@.len() == rgb888_of(bytes@).len(),
        forall|j: int| 0 <= j < r@.len() ==> r@[j] as nat == #[trigger] rgb888_of(bytes@)[j],
{
    let len = bytes.len();
    let n = len / 2;
    let mut out: Vec<u8> = Vec::new();
    let mut p: usize = 0;
    while p < n
        invariant
            n == bytes@.len() / 2,
            len == bytes@.len(),
            2 * n <= len,
            p <= n,
            out@.len() == 3 * p,
            forall|j: int|
                0 <= j < out@.len() ==> out@[j] as nat == #[trigger] channel888(
                    pixel_at(bytes@, j / 3),
                    j % 3,
                ),
        decreases n - p,
    {
        let c = rgb888_of_le(bytes[2 * p], bytes[2 * p + 1]);
        let ghost before = out@;
        out.push(c[0]);
        out.push(c[1]);
        out.push(c[2]);
        assert forall|j: int|
            0 <= j < out@.len() implies out@[j] as nat == #[trigger] channel888(
                pixel_at(bytes@, j / 3),
                j % 3,
            ) by {
            if j >= 3 * p {
                assert(j / 3 == p as int);
            } else {
                assert(out@[j] == before[j]);
            }
        }
        p = p + 1;
    }
    out
}

/// Decodes a camera frame to RGB888 bytes, row-major; `None` unless the
/// frame holds exactly `IMAGE_WIDTH * IMAGE_HEIGHT` pixels of two bytes.
pub fn decode_frame(frame: &Frame) -> (r: Option<Vec<u8>>)
    ensures
        r is Some <==> frame.0@.len() == IMAGE_SIZE,
        r matches Some(rgb) ==> {
            &&& rgb@.len() == 3 * IMAGE_WIDTH * IMAGE_HEIGHT
            &&& forall|j: int|
                0 <= j < rgb@.len() ==> rgb@[j] as nat == #[trigger] rgb888_of(frame.0@)[j]
        },
{
    if frame.0.len() == IMAGE_SIZE {
        Some(decode_rgb565(&frame.0))
    } else {
        None
    }
}

/// Packs RGB888 bytes, three per pixel, to RGB565 values.
pub fn encode_rgb888(rgb: &Vec<u8>) -> (r: Vec<u16>)
    ensures
        r@.len() == rgb@.len() / 3,
        forall|p: int|
            0 <= p < r@.len() ==> r@[p] as nat == #[trigger] pack565(
                narrow5(rgb@[3 * p] as nat),
                narrow6(rgb@[3 * p + 1] as nat),
                narrow5(rgb@[3 * p + 2] as nat),
            ),
{
    let len = rgb.len();
    let n = len / 3;
    let mut out: Vec<u16> = Vec::new();
    let mut p: usize = 0;
    while p < n
        invariant
            n == rgb@.len() / 3,
            len == rgb@.len(),
            3 * n <= len,
            p <= n,
            out@.len() == p,
            forall|q: int|
                0 <= q < p ==> out@[q] as nat == #[trigger] pack565(
                    narrow5(rgb@[3 * q] as nat),
                    narrow6(rgb@[3 * q + 1] as nat),
                    narrow5(rgb@[3 * q + 2] as nat),
                ),
        decreases n - p,
    {
        let c = rgb565_of_rgb888(rgb[3 * p], rgb[3 * p + 1], rgb[3 * p + 2]);
        out.push(c);
        p = p + 1;
    }
    out
}

/// Packs RGBA bytes, four per pixel, to RGB565 values; alpha is ignored.
pub fn encode_rgba8(rgba: &Vec<u8>) -> (r: Vec<u16>)
    ensures
        r@.len() == rgba@.len() / 4,
        forall|p: int|
            0 <= p < r@.len() ==> r@[p] as nat == #[trigger] pack565(
                narrow5(rgba@[4 * p] as nat),
                narrow6(rgba@[4 * p + 1] as nat),
                narrow5(rgba@[4 * p + 2] as nat),
            ),
{
    let len = rgba.len();
    let n = len / 4;
    let mut out: Vec<u16> = Vec::new();
    let mut p: usize = 0;
    while p < n
        invariant
            n == rgba@.len() / 4,
            len == rgba@.len(),
            4 * n <= len,
            p <= n,
            out@.len() == p,
            forall|q: int|
                0 <= q < p ==> out@[q] as nat == #[trigger] pack565(
                    narrow5(rgba@[4 * q] as nat),
                    narrow6(rgba@[4 * q + 1] as nat),
                    narrow5(rgba@[4 * q + 2] as nat),
                ),
        decreases n - p,
    {
        let c = rgb565_of_rgb888(rgba[4 * p], rgba[4 * p + 1], rgba[4 * p + 2]);
        out.push(c);
        p = p + 1;
    }
    out
}

proof fn lemma_narrow_widen5(v: nat)
    requires
        v < 32,
    ensures
        narrow5(widen5(v)) == v,
{
    let x = v * 255 / 31;
    assert(31 * x <= 255 * v && 255 * v < 31 * x + 31) by (nonlinear_arith)
        requires
            x == v * 255 / 31,
    ;
    assert((x + 1) * 31 / 255 == v) by (nonlinear_arith)
        requires
            31 * x <= 255 * v,
            255 * v < 31 * x + 31,
    ;
}

proof fn lemma_narrow_widen6(v: nat)
    requires
        v < 64,
    ensures
        narrow6(widen6(v)) == v,
{
    let x = v * 255 / 63;
    assert(63 * x <= 255 * v && 255 * v < 63 * x + 63) by (nonlinear_arith)
        requires
            x == v * 255 / 63,
    ;
    assert((x + 1) * 63 / 255 == v) by (nonlinear_arith)
        requires
            63 * x <= 255 * v,
            255 * v < 63 * x + 63,
    ;
}

/// Widening an RGB565 value to RGB888 and narrowing it back with the same
/// channel quantization gives the value again.
pub proof fn lemma_pixel_round_trip(c: nat)
    requires
        c < 65536,
    ensures
        pack565(
            narrow5(channel888(c, 0)),
            narrow6(channel888(c, 1)),
            narrow5(channel888(c, 2)),
        ) == c,
{
    lemma_narrow_widen5(red5(c));
    lemma_narrow_widen6(green6(c));
    lemma_narrow_widen5(blue5(c));
    assert(c == red5(c) * 2048 + green6(c) * 32 + blue5(c)) by (nonlinear_arith)
        requires
            c < 65536,
    ;
}

/// Decoding a frame to RGB888 and re-encoding it with the same channel
/// quantization gives back its RGB565 pixels.
pub proof fn lemma_frame_round_trip(bytes: Seq<u8>)
    ensures
        rgb565_of(rgb888_of(bytes)) == pixels_of(bytes),
{
    let rgb = rgb888_of(bytes);
    let len = bytes.len();
    let n = len / 2;
    assert(rgb.len() / 3 == n);
    assert forall|p: int| 0 <= p < n implies #[trigger] rgb565_of(rgb)[p] == pixels_of(bytes)[p] by {
        let c = pixel_at(bytes, p);
        assert(c < 65536);
        assert((3 * p) / 3 == p && (3 * p) % 3 == 0);
        assert((3 * p + 1) / 3 == p && (3 * p + 1) % 3 == 1);
        assert((3 * p + 2) / 3 == p && (3 * p + 2) % 3 == 2);
        lemma_pixel_round_trip(c);
    }
    assert(rgb565_of(rgb) =~= pixels_of(bytes));
}

} // verus!
