//! Bitrate scaling for encoders whose rate control runs at another frame rate
//! than the stream.
use crate::text::ends_with;
use vstd::prelude::*;

verus! {

/// The bitrate with which each frame gets as many bits at another frame rate.
pub open spec fn scaled_bitrate(bitrate: u32, nominal_fps: u32, rate_fps: u32) -> int {
    (bitrate * nominal_fps) / rate_fps as int
}

/// Scales a bitrate that is meant for `nominal_fps` so that an encoder whose
/// rate control assumes `rate_fps` spends the same number of bits on each frame.
pub fn scale_bitrate_for_rate_control(bitrate: u32, nominal_fps: u32, rate_fps: u32) -> (r: Result<
    u32,
    RateControlError,
>)
    ensures
        match r {
            Ok(scaled) => rate_fps > 0 && scaled == scaled_bitrate(bitrate, nominal_fps, rate_fps),
            Err(RateControlError::ZeroFrameRate) => nominal_fps == 0 || rate_fps == 0,
            Err(RateControlError::BitrateOverflow) => rate_fps > 0 && scaled_bitrate(
                bitrate,
                nominal_fps,
                rate_fps,
            ) > u32::MAX,
        },
        match r {
            Ok(scaled) => nominal_fps != 0 && rate_fps != 0 && scaled == (bitrate * nominal_fps)
                / rate_fps as int,
            Err(RateControlError::ZeroFrameRate) => nominal_fps == 0 || rate_fps == 0,
            Err(RateControlError::BitrateOverflow) => nominal_fps != 0 && rate_fps != 0 && (bitrate
                * nominal_fps) / rate_fps as int > u32::MAX,
        },
{
    if nominal_fps == 0 || rate_fps == 0 {
        return Err(RateControlError::ZeroFrameRate);
    }
    assert(bitrate * nominal_fps <= 0xffff_ffff * 0xffff_ffff) by (nonlinear_arith)
        requires
            0 <= bitrate <= 0xffff_ffff,
            0 <= nominal_fps <= 0xffff_ffff,
    ;
    let scaled: u64 = bitrate as u64 * nominal_fps as u64 / rate_fps as u64;
    if scaled > 0xffff_ffff {
        Err(RateControlError::BitrateOverflow)
    } else {
        Ok(scaled as u32)
    }
}

/// The usual frame rate.
pub const DEFAULT_FPS: u32 = 30;

/// Whether the rate control of an encoder follows the frame rate that it is
/// given. Those of Quick Sync Video do.
pub fn supports_fps_aware_rate_control(name: &str) -> (r: bool)
    ensures
        r == "_qsv"@.is_suffix_of(name@),
{
    ends_with(name, "_qsv")
}

/// With a frame rate that divides the budget evenly, each frame gets exactly the
/// bits that it would get at the nominal frame rate.
pub proof fn law_frame_budget_is_kept(bitrate: u32, nominal_fps: u32, rate_fps: u32, scaled: int)
    requires
        rate_fps != 0,
        scaled == (bitrate * nominal_fps) / rate_fps as int,
    ensures
        scaled * rate_fps <= bitrate * nominal_fps < (scaled + 1) * rate_fps,
        (bitrate * nominal_fps) % rate_fps as int == 0 ==> scaled * rate_fps == bitrate
            * nominal_fps,
{
    let total = bitrate * nominal_fps;
    vstd::arithmetic::div_mod::lemma_fundamental_div_mod(total, rate_fps as int);
    assert((scaled + 1) * rate_fps == rate_fps * scaled + rate_fps) by (nonlinear_arith);
    assert(scaled * rate_fps == rate_fps * scaled) by (nonlinear_arith);
}

/// Why a bitrate could not be scaled.
#[derive(Clone, Copy, Debug, PartialEq, Eq, Structural)]
pub enum RateControlError {
    /// One of the frame rates is zero, so a frame has no bit budget.
    ZeroFrameRate,
    /// The scaled bitrate does not fit the encoder's 32-bit field.
    BitrateOverflow,
}

/// A bitrate is not changed where both frame rates are the same, is spread over the bits
/// of all frames to within one, and grows with the bitrate that it is made from.
pub proof fn law_scaled_bitrates(bitrate: u32, larger: u32, nominal_fps: u32, rate_fps: u32)
    requires
        rate_fps > 0,
        bitrate <= larger,
    ensures
        scaled_bitrate(bitrate, rate_fps, rate_fps) == bitrate,
        scaled_bitrate(bitrate, nominal_fps, rate_fps) * rate_fps <= bitrate * nominal_fps < (
        scaled_bitrate(bitrate, nominal_fps, rate_fps) + 1) * rate_fps,
        scaled_bitrate(bitrate, nominal_fps, rate_fps) <= scaled_bitrate(
            larger,
            nominal_fps,
            rate_fps,
        ),
{
    law_frame_budget_is_kept(
        bitrate,
        nominal_fps,
        rate_fps,
        scaled_bitrate(bitrate, nominal_fps, rate_fps),
    );
    vstd::arithmetic::div_mod::lemma_div_by_multiple(bitrate as int, rate_fps as int);
    assert(bitrate * nominal_fps <= larger * nominal_fps) by (nonlinear_arith)
        requires
            bitrate <= larger,
            0 <= nominal_fps,
    ;
    vstd::arithmetic::div_mod::lemma_div_is_ordered(
        bitrate * nominal_fps,
        larger * nominal_fps,
        rate_fps as int,
    );
}

} // verus!
