//! BT.601-style YUV to RGB colour transform in exact integer arithmetic.
//!
//! Coefficients are held in thousandths, so that `1.402` is `1402`. Every
//! channel is the real-valued expression, rounded down to a whole number and
//! then saturated to `0..=255`.

use vstd::prelude::*;

verus! {

/// The value at which a chroma sample carries no colour.
pub const NEUTRAL_CHROMA: u8 = 128;

/// Saturates a whole number to the range of an 8-bit channel.
pub open spec fn clamp_channel(x: int) -> int {
    if x < 0 {
        0
    } else if x > 255 {
        255
    } else {
        x
    }
}

/// `R = clamp(Y + 1.402 (V - 128))`
pub open spec fn red_channel(y: int, v: int) -> int {
    clamp_channel((1000 * y + 1402 * (v - 128)) / 1000)
}

/// `G = clamp(Y - 0.344 (U - 128) - 0.714 (V - 128))`
pub open spec fn green_channel(y: int, u: int, v: int) -> int {
    clamp_channel((1000 * y - 344 * (u - 128) - 714 * (v - 128)) / 1000)
}

/// `B = clamp(Y + 1.772 (U - 128))`
pub open spec fn blue_channel(y: int, u: int) -> int {
    clamp_channel((1000 * y + 1772 * (u - 128)) / 1000)
}

/// The three bytes of the RGB pixel for one luma sample and its chroma pair.
pub open spec fn rgb_of(y: u8, u: u8, v: u8) -> Seq<u8> {
    seq![
        red_channel(y as int, v as int) as u8,
        green_channel(y as int, u as int, v as int) as u8,
        blue_channel(y as int, u as int) as u8,
    ]
}

/// A sample with neutral chroma is gray: all three channels are its luma.
pub proof fn lemma_neutral_chroma_is_gray(y: u8)
    ensures
        rgb_of(y, NEUTRAL_CHROMA, NEUTRAL_CHROMA) == seq![y, y, y],
{
    assert(rgb_of(y, NEUTRAL_CHROMA, NEUTRAL_CHROMA) =~= seq![y, y, y]);
}

/// A channel whose exact value lies above the range is 255 and one whose
/// exact value lies below it is 0, whatever the sample: values saturate and
/// never wrap around.
pub proof fn lemma_channels_saturate(y: u8, u: u8, v: u8)
    ensures
        1000 * y + 1402 * (v - 128) >= 255_000 ==> rgb_of(y, u, v)[0] == 255,
        1000 * y + 1402 * (v - 128) < 0 ==> rgb_of(y, u, v)[0] == 0,
        1000 * y - 344 * (u - 128) - 714 * (v - 128) >= 255_000 ==> rgb_of(y, u, v)[1] == 255,
        1000 * y - 344 * (u - 128) - 714 * (v - 128) < 0 ==> rgb_of(y, u, v)[1] == 0,
        1000 * y + 1772 * (u - 128) >= 255_000 ==> rgb_of(y, u, v)[2] == 255,
        1000 * y + 1772 * (u - 128) < 0 ==> rgb_of(y, u, v)[2] == 0,
{
}

/// Rounds a channel value in thousandths down to a whole number and
/// saturates it.
fn saturate_thousandths(scaled: i32) -> (channel: u8)
    requires
        -1_000_000 <= scaled <= 1_000_000,
    ensures
        channel as int == clamp_channel(scaled as int / 1000),
{
    if scaled < 0 {
        0
    } else if scaled >= 256_000 {
        255
    } else {
        let whole: i32 = scaled / 1000;
        whole as u8
    }
}

/// Converts one YUV sample to an RGB pixel.
pub fn yuv_to_rgb(y: u8, u: u8, v: u8) -> (rgb: [u8; 3])
    ensures
        rgb@ == rgb_of(y, u, v),
        rgb[0] as int == red_channel(y as int, v as int),
        rgb[1] as int == green_channel(y as int, u as int, v as int),
        rgb[2] as int == blue_channel(y as int, u as int),
{
    let luma: i32 = 1000 * (y as i32);
    let cb: i32 = u as i32 - 128;
    let cr: i32 = v as i32 - 128;
    let r: u8 = saturate_thousandths(luma + 1402 * cr);
    let g: u8 = saturate_thousandths(luma - 344 * cb - 714 * cr);
    let b: u8 = saturate_thousandths(luma + 1772 * cb);
    let rgb: [u8; 3] = [r, g, b];
    assert(rgb@ =~= rgb_of(y, u, v));
    rgb
}

} // verus!
