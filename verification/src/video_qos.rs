//! The frame rate to fall back to for a clear picture.
use crate::text::parse_number;
use vstd::prelude::*;

verus! {

/// The lowest frame rate.
pub const MIN_FPS: u32 = 1;

/// The usual frame rate.
pub const FPS: u32 = 30;

/// The frame rate that a text asks for, where it is one that is supported.
pub open spec fn clarity_fps(value: Seq<char>) -> Option<nat> {
    match crate::text::number_value(value) {
        Some(n) if MIN_FPS <= n <= FPS => Some(n),
        _ => None,
    }
}

/// Reads the frame rate that a user sets for clear pictures.
pub fn parse_clarity_fps(value: &str) -> (r: Result<u32, &'static str>)
    ensures
        r is Ok <==> clarity_fps(value@) is Some,
        r matches Ok(fps) ==> clarity_fps(value@) == Some(fps as nat),
        match r {
            Ok(fps) => MIN_FPS <= fps <= FPS && crate::text::number_value(value@) == Some(
                fps as nat,
            ),
            Err(e) => match crate::text::number_value(value@) {
                Some(n) => if n < MIN_FPS {
                    e@ == "the frame rate is too low"@
                } else {
                    n > FPS && e@ == "the frame rate is no supported number"@
                },
                None => e@ == "the frame rate is no supported number"@,
            },
        },
{
    match parse_number(value, FPS as u64) {
        Some(n) => {
            if n < MIN_FPS as u64 {
                Err("the frame rate is too low")
            } else {
                Ok(n as u32)
            }
        },
        None => Err("the frame rate is no supported number"),
    }
}

/// Every frame rate from 1 to 30 can be asked for by its number, and no other.
pub proof fn law_supported_frame_rates(fps: nat, value: Seq<char>)
    ensures
        1 <= fps <= 30 <==> clarity_fps(crate::text::decimal(fps)) == Some(fps),
        clarity_fps(value) matches Some(n) ==> 1 <= n <= 30 && crate::text::number_value(value)
            == Some(n),
        crate::text::number_value(value) is None ==> clarity_fps(value) is None,
{
    crate::text::law_decimal_round_trip(fps);
}

} // verus!
