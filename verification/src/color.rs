//! Opaque colours with eight bits to a channel, drawn at random and blended.

use crate::randomness::drawn_u8;
use crate::randomness::Randomness;
use crate::randomness::StreamPosition;
use core::ops::Range;
use vstd::prelude::*;

verus! {

/// An opaque colour.
#[derive(Clone, Copy, Debug, PartialEq, Eq, Structural)]
pub struct Color {
    pub red: u8,
    pub green: u8,
    pub blue: u8,
}

/// The colour drawn at `at` with each channel from its own range, red first,
/// and the position after the three draws.
pub open spec fn color_drawn(at: StreamPosition, r: Range<u8>, g: Range<u8>, b: Range<u8>) -> (
    Color,
    StreamPosition,
) {
    let red = drawn_u8(at, r.start, r.end);
    let green = drawn_u8(red.1, g.start, g.end);
    let blue = drawn_u8(green.1, b.start, b.end);
    (Color { red: red.0, green: green.0, blue: blue.0 }, blue.1)
}

/// Whether each channel of `c` lies in its range.
pub open spec fn color_within(c: Color, r: Range<u8>, g: Range<u8>, b: Range<u8>) -> bool {
    &&& r.start <= c.red < r.end
    &&& g.start <= c.green < g.end
    &&& b.start <= c.blue < b.end
}

/// One channel of a blend: `left` weighted by `numerator / denominator`,
/// `right` by the rest, rounded down.
pub open spec fn blended_channel(left: u8, right: u8, numerator: int, denominator: int) -> int {
    (left * numerator + right * (denominator - numerator)) / denominator
}

/// The blend of two colours, channel by channel.
pub open spec fn blended(left: Color, right: Color, numerator: int, denominator: int) -> Color {
    Color {
        red: blended_channel(left.red, right.red, numerator, denominator) as u8,
        green: blended_channel(left.green, right.green, numerator, denominator) as u8,
        blue: blended_channel(left.blue, right.blue, numerator, denominator) as u8,
    }
}

/// A blended channel lies between the two channels it blends.
pub proof fn lemma_blended_channel_between(left: u8, right: u8, numerator: int, denominator: int)
    requires
        0 <= numerator <= denominator,
        0 < denominator,
    ensures
        left <= right ==> left <= blended_channel(left, right, numerator, denominator) <= right,
        right <= left ==> right <= blended_channel(left, right, numerator, denominator) <= left,
{
    let l = left as int;
    let r = right as int;
    let sum = l * numerator + r * (denominator - numerator);
    if l <= r {
        assert(l * denominator <= sum <= r * denominator) by (nonlinear_arith)
            requires
                l <= r,
                0 <= numerator <= denominator,
                sum == l * numerator + r * (denominator - numerator),
        ;
        assert(l <= sum / denominator <= r) by (nonlinear_arith)
            requires
                l * denominator <= sum <= r * denominator,
                0 < denominator,
        ;
    }
    if r <= l {
        assert(r * denominator <= sum <= l * denominator) by (nonlinear_arith)
            requires
                r <= l,
                0 <= numerator <= denominator,
                sum == l * numerator + r * (denominator - numerator),
        ;
        assert(r <= sum / denominator <= l) by (nonlinear_arith)
            requires
                r * denominator <= sum <= l * denominator,
                0 < denominator,
        ;
    }
}

fn interpolate_channel(left: u8, right: u8, numerator: u32, denominator: u32) -> (channel: u8)
    requires
        numerator <= denominator,
        0 < denominator,
    ensures
        channel == blended_channel(left, right, numerator as int, denominator as int),
{
    let l: u64 = left as u64;
    let r: u64 = right as u64;
    let n: u64 = numerator as u64;
    let d: u64 = denominator as u64;
    proof {
        lemma_blended_channel_between(left, right, numerator as int, denominator as int);
        assert(l * n <= 255 * 0xffff_ffff) by (nonlinear_arith)
            requires
                l <= 255,
                n <= 0xffff_ffff,
        ;
        assert(r * (d - n) <= 255 * 0xffff_ffff) by (nonlinear_arith)
            requires
                r <= 255,
                0 <= d - n <= 0xffff_ffff,
        ;
    }
    ((l * n + r * (d - n)) / d) as u8
}

/// A colour with each channel drawn from its own range, red first.
pub fn rand_color(randomness: &mut Randomness, r: Range<u8>, g: Range<u8>, b: Range<u8>) -> (color:
    Color)
    requires
        r.start < r.end,
        g.start < g.end,
        b.start < b.end,
    ensures
        color_within(color, r, g, b),
        color == color_drawn(old(randomness)@, r, g, b).0,
        final(randomness)@ == color_drawn(old(randomness)@, r, g, b).1,
{
    let red = randomness.draw_u8(r.start, r.end);
    let green = randomness.draw_u8(g.start, g.end);
    let blue = randomness.draw_u8(b.start, b.end);
    Color { red, green, blue }
}

/// Blends `left` into `right`: each channel is `left` weighted by
/// `numerator / denominator` plus `right` weighted by the rest, rounded
/// down. Weight one gives `left`, weight zero gives `right`.
pub fn interpolate(left: Color, right: Color, numerator: u32, denominator: u32) -> (color: Color)
    requires
        numerator <= denominator,
        0 < denominator,
    ensures
        color == blended(left, right, numerator as int, denominator as int),
{
    Color {
        red: interpolate_channel(left.red, right.red, numerator, denominator),
        green: interpolate_channel(left.green, right.green, numerator, denominator),
        blue: interpolate_channel(left.blue, right.blue, numerator, denominator),
    }
}

} // verus!
