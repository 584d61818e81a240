//! Baud rates and the divisors that produce them.
use vstd::prelude::*;

verus! {

/// The table of verified rates: the divisor word of each.
pub open spec fn divisor_word(baud: u32) -> Option<u16> {
    if baud == 9600 {
        Some(0x4138)
    } else if baud == 19200 {
        Some(0x809C)
    } else if baud == 38400 {
        Some(0xC04E)
    } else if baud == 57600 {
        Some(0x0034)
    } else if baud == 115200 || baud == 115384 {
        Some(0x001A)
    } else if baud == 230400 {
        Some(0x000D)
    } else {
        None
    }
}

/// Encodes a baud rate as the FT232R/BM divisor of the 3 MHz base clock, as
/// `(wValue, wIndex)`.
///
/// This is a table of rates verified on hardware; other rates have no encoding.
pub fn baud_divisor(baud: u32) -> (divisor: Option<(u16, u16)>)
    ensures
        divisor == match divisor_word(baud) {
            Some(word) => Some((word, 0u16)),
            None => None,
        },
{
    Some(
        match baud {
            9600 => (0x4138, 0x0000),
            19200 => (0x809C, 0x0000),
            38400 => (0xC04E, 0x0000),
            57600 => (0x0034, 0x0000),
            // 3 MHz / 26 is 115384: both names mean the same rate.
            115200 | 115384 => (0x001A, 0x0000),
            230400 => (0x000D, 0x0000),
            _ => return None,
        },
    )
}

/// The divisor that a divisor word stands for, in eighths: a 14-bit integer
/// part, and above it a code for the fraction.
pub open spec fn divisor_eighths(word: u16) -> int {
    let code = word as int / 0x4000;
    let fraction: int = if code == 0 {
        0
    } else if code == 1 {
        4
    } else if code == 2 {
        2
    } else {
        1
    };
    8 * (word as int % 0x4000) + fraction
}

/// Every encoded rate is what the divisor makes of the 3 MHz base clock, to
/// within one part in six hundred.
pub proof fn law_divisor_matches_clock(baud: u32)
    requires
        divisor_word(baud) is Some,
    ensures
        ({
            let clock_eighths = 8 * 3_000_000;
            let achieved = baud * divisor_eighths(divisor_word(baud)->0);
            &&& achieved <= clock_eighths
            &&& 600 * (clock_eighths - achieved) <= clock_eighths
        }),
{
}

/// The rates that have a divisor are these, and no others. The divisor word,
/// read as a 14-bit integer part with a code for the eighths above it, is the
/// 3 MHz base clock over the rate, rounded down to an eighth.
pub proof fn law_divisor_is_clock_over_rate(baud: u32)
    ensures
        divisor_word(baud) is Some <==> baud == 9600 || baud == 19200 || baud == 38400 || baud
            == 57600 || baud == 115200 || baud == 115384 || baud == 230400,
        divisor_word(baud) is Some ==> ({
            let word = divisor_word(baud)->0 as int;
            8 * (word % 0x4000) + (if word / 0x4000 == 0 {
                0int
            } else if word / 0x4000 == 1 {
                4
            } else if word / 0x4000 == 2 {
                2
            } else {
                1
            }) == 24_000_000int / baud as int
        }),
{
}

} // verus!
