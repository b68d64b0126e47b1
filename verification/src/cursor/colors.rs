//! Pointer pixels with straight and premultiplied transparency.
use crate::cursor::ids::is_positive;
use vstd::prelude::*;

verus! {

/// Bytes of a pixel: red, green, blue and alpha.
pub const CHANNELS: usize = 4;

/// The bytes of a bitmap, where they can be counted.
pub fn bitmap_length(width: usize, height: usize) -> (r: Result<usize, &'static str>)
    ensures
        match r {
            Ok(length) => length == width * height * CHANNELS,
            Err(e) => width * height * CHANNELS > usize::MAX && e@ == "Cursor bitmap size overflow"@,
        },
{
    match width.checked_mul(height) {
        Some(pixels) => match pixels.checked_mul(CHANNELS) {
            Some(length) => Ok(length),
            None => Err("Cursor bitmap size overflow"),
        },
        None => Err("Cursor bitmap size overflow"),
    }
}

/// A colour channel as it was before it was multiplied with the transparency,
/// rounded, at most the largest value. Without any opacity it stays.
pub open spec fn straight_channel(channel: u8, alpha: u8) -> u8 {
    if alpha == 0 {
        channel
    } else {
        let value = (channel * 255 + alpha / 2) / (alpha as int);
        if value > 255 {
            255
        } else {
            value as u8
        }
    }
}

/// A byte at a position belongs to the colours of a complete pixel.
pub open spec fn is_colour(len: int, i: int) -> bool {
    i % 4 != 3 && (i / 4) * 4 + 4 <= len
}

/// Pixels with straight transparency, from premultiplied ones. What is left after
/// the last complete pixel stays.
pub open spec fn straight(pixels: Seq<u8>) -> Seq<u8> {
    Seq::new(
        pixels.len(),
        |i: int|
            if is_colour(pixels.len() as int, i) {
                straight_channel(pixels[i], pixels[(i / 4) * 4 + 3])
            } else {
                pixels[i]
            },
    )
}

fn straighten(channel: u8, alpha: u8) -> (r: u8)
    ensures
        r == straight_channel(channel, alpha),
{
    if alpha == 0 {
        return channel;
    }
    let wide: u32 = alpha as u32;
    let value: u32 = (channel as u32 * 255 + wide / 2) / wide;
    if value > 255 {
        255
    } else {
        value as u8
    }
}

/// Turns premultiplied pixels into straight ones.
pub fn straight_rgba(pixels: &[u8]) -> (r: Vec<u8>)
    ensures
        r@ == straight(pixels@),
{
    let mut colors: Vec<u8> = Vec::new();
    let mut i: usize = 0;
    while i < pixels.len()
        invariant
            i <= pixels.len(),
            colors@ == straight(pixels@).take(i as int),
        decreases pixels.len() - i,
    {
        let start: usize = i - i % CHANNELS;
        proof {
            assert((i as int / 4) * 4 == start);
        }
        let value: u8 = if i % CHANNELS != CHANNELS - 1 && pixels.len() - start >= CHANNELS {
            straighten(pixels[i], pixels[start + 3])
        } else {
            pixels[i]
        };
        colors.push(value);
        i = i + 1;
        assert(colors@ =~= straight(pixels@).take(i as int));
    }
    assert(straight(pixels@).take(i as int) =~= straight(pixels@));
    colors
}

/// The colours to store in a picture file, which holds straight colours. Packets
/// of macOS that name a density hold premultiplied colours; all others are
/// straight already. The density is given by its bit pattern.
pub fn png_colors(colors: Vec<u8>, scale_bits: u64, is_macos: bool) -> (r: Vec<u8>)
    ensures
        r@ == if is_macos && crate::cursor::ids::positive(scale_bits) {
            straight(colors@)
        } else {
            colors@
        },
{
    if !(is_macos && is_positive(scale_bits)) {
        return colors;
    }
    straight_rgba(colors.as_slice())
}

/// The transparency of a pixel stays, opaque pixels stay, and no colour becomes
/// darker.
pub proof fn law_straight_pixels(pixels: Seq<u8>, i: int)
    requires
        0 <= i < pixels.len(),
    ensures
        straight(pixels).len() == pixels.len(),
        i % 4 == 3 ==> straight(pixels)[i] == pixels[i],
        is_colour(pixels.len() as int, i) && pixels[(i / 4) * 4 + 3] == 255 ==> straight(pixels)[i]
            == pixels[i],
        straight(pixels)[i] >= pixels[i],
{
    if is_colour(pixels.len() as int, i) {
        let c = pixels[i] as int;
        let a = pixels[(i / 4) * 4 + 3] as int;
        if a > 0 {
            assert((c * 255 + a / 2) / a >= c) by (nonlinear_arith)
                requires
                    0 < a <= 255,
                    0 <= c,
            ;
        }
    }
}

/// A straight colour is the nearest one that gives the stored colour back when it is
/// multiplied with the transparency; a stored colour that no transparency explains
/// becomes the brightest.
pub proof fn law_straight_colours_are_nearest(channel: u8, alpha: u8)
    ensures
        alpha == 0 ==> straight_channel(channel, alpha) == channel,
        0 < alpha && channel <= alpha ==> -(alpha as int) <= 2 * (straight_channel(channel, alpha)
            * alpha - 255 * channel) <= alpha,
        0 < alpha <= channel ==> straight_channel(channel, alpha) == 255,
{
    if alpha > 0 {
        let c = channel as int;
        let a = alpha as int;
        let v = (c * 255 + a / 2) / a;
        vstd::arithmetic::div_mod::lemma_fundamental_div_mod(c * 255 + a / 2, a);
        let r = (c * 255 + a / 2) % a;
        assert(a * v + r == c * 255 + a / 2);
        assert(a * v == v * a) by (nonlinear_arith);
        if c <= a {
            assert(v <= 255) by (nonlinear_arith)
                requires
                    a > 0,
                    c <= a,
                    a * v + r == c * 255 + a / 2,
                    r >= 0,
            ;
        }
        if c >= a {
            assert(v >= 255) by (nonlinear_arith)
                requires
                    a > 0,
                    c >= a,
                    a * v + r == c * 255 + a / 2,
                    0 <= r < a,
            ;
        }
    }
}

/// Pixels are treated one by one: the first four bytes give three straight colours and
/// their transparency, and the rest is treated in the same way.
pub proof fn law_pixels_are_independent(r: u8, g: u8, b: u8, a: u8, rest: Seq<u8>)
    ensures
        straight(seq![r, g, b, a] + rest) == seq![
            straight_channel(r, a),
            straight_channel(g, a),
            straight_channel(b, a),
            a,
        ] + straight(rest),
        rest.len() < 4 ==> straight(rest) == rest,
{
    let whole = seq![r, g, b, a] + rest;
    let wanted = seq![
        straight_channel(r, a),
        straight_channel(g, a),
        straight_channel(b, a),
        a,
    ] + straight(rest);
    assert forall|i: int| 0 <= i < whole.len() implies straight(whole)[i] == #[trigger] wanted[i] by {
        if i >= 4 {
            assert((i / 4) * 4 + 3 - 4 == ((i - 4) / 4) * 4 + 3);
            assert(whole[i] == rest[i - 4]);
            if is_colour(whole.len() as int, i) {
                assert(whole[(i / 4) * 4 + 3] == rest[((i - 4) / 4) * 4 + 3]);
            }
        } else {
            assert(i / 4 == 0);
        }
    }
    assert(straight(whole) =~= wanted);
    if rest.len() < 4 {
        assert(straight(rest) =~= rest);
    }
}

} // verus!
