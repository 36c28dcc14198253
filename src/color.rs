use vstd::prelude::*;

verus! {

/// An RGBA color with 8-bit channels, in the order red, green, blue, alpha.
pub type Color = [u8; 4];

/// Absolute difference of two channel values.
pub open spec fn channel_diff(x: u8, y: u8) -> int {
    if x >= y {
        x - y
    } else {
        y - x
    }
}

/// The L1 distance of two colors over all four channels, in `[0, 1020]`;
/// zero when both colors are fully transparent.
pub open spec fn distance(a: Color, b: Color) -> int {
    if a[3] == 0 && b[3] == 0 {
        0
    } else {
        channel_diff(a[0], b[0]) + channel_diff(a[1], b[1]) + channel_diff(a[2], b[2])
            + channel_diff(a[3], b[3])
    }
}

fn abs_diff(x: u8, y: u8) -> (r: u16)
    ensures
        r == channel_diff(x, y),
{
    if x >= y {
        (x - y) as u16
    } else {
        (y - x) as u16
    }
}

/// Sum of the absolute per-channel differences of `a` and `b`, or zero when
/// both are fully transparent.
pub fn color_distance(a: Color, b: Color) -> (r: u16)
    ensures
        r == distance(a, b),
        r <= 1020,
{
    let (alpha_a, alpha_b): (u8, u8) = (a[3], b[3]);
    if alpha_a | alpha_b == 0 {
        assert(alpha_a == 0 && alpha_b == 0) by (bit_vector)
            requires
                alpha_a | alpha_b == 0u8,
        ;
        return 0;
    }
    assert(!(alpha_a == 0 && alpha_b == 0)) by (bit_vector)
        requires
            alpha_a | alpha_b != 0u8,
    ;
    abs_diff(a[0], b[0]) + abs_diff(a[1], b[1]) + abs_diff(a[2], b[2]) + abs_diff(a[3], b[3])
}

/// A color is at distance zero from itself.
pub proof fn lemma_distance_self(c: Color)
    ensures
        distance(c, c) == 0,
{
}

/// The distance does not depend on the order of its arguments.
pub proof fn lemma_distance_symmetric(a: Color, b: Color)
    ensures
        distance(a, b) == distance(b, a),
{
}

} // verus!
