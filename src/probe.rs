use vstd::prelude::*;

use crate::numeral::{
    find_byte, first_index, integer_of, lemma_first_index_bounds, lemma_pow10_monotonic,
    numeral_of, parse_integer, parse_numeral, pow10, power_of_ten, trim_bounds, trimmed, SLASH,
};
use crate::rate::Rate;

verus! {

/// Why probing one input failed.
#[derive(Clone, Copy, Debug, PartialEq, Eq, Structural)]
pub enum ProbeFailure {
    /// The probing tool could not be run or exited with a non-zero status.
    ToolFailed,
    /// Its output was not a number, nor a pair `N/D` of whole numbers.
    Malformed,
    /// Its output was a pair `N/D` with `D` zero.
    ZeroDenominator,
}

/// The frame rate that a probe's output token stands for.
pub open spec fn rate_of(t: Seq<u8>) -> Result<Rate, ProbeFailure> {
    let q = first_index(t, SLASH);
    if q < t.len() {
        match (integer_of(t.subrange(0, q)), integer_of(t.subrange(q + 1, t.len() as int))) {
            (Some(n), Some(d)) => if d == 0 {
                Err(ProbeFailure::ZeroDenominator)
            } else {
                Ok(Rate { num: n as u64, den: d as u64 })
            },
            _ => Err(ProbeFailure::Malformed),
        }
    } else {
        match numeral_of(t) {
            Some((m, sc)) => Ok(Rate { num: m as u64, den: pow10(sc) as u64 }),
            None => Err(ProbeFailure::Malformed),
        }
    }
}

/// The whole seconds, rounded down and held to `u32`, that a duration token stands for.
pub open spec fn duration_of(t: Seq<u8>) -> Result<u32, ProbeFailure> {
    match numeral_of(t) {
        Some((m, sc)) => {
            let secs = m / pow10(sc);
            Ok(if secs > u32::MAX { u32::MAX } else { secs as u32 })
        },
        None => Err(ProbeFailure::Malformed),
    }
}

/// What a probe for the frame rate gives: the tool's status, then its output trimmed.
pub open spec fn probed_rate(success: bool, out: Seq<u8>) -> Result<Rate, ProbeFailure> {
    if success {
        rate_of(trimmed(out))
    } else {
        Err(ProbeFailure::ToolFailed)
    }
}

/// What a probe for the duration gives: the tool's status, then its output trimmed.
pub open spec fn probed_duration(success: bool, out: Seq<u8>) -> Result<u32, ProbeFailure> {
    if success {
        duration_of(trimmed(out))
    } else {
        Err(ProbeFailure::ToolFailed)
    }
}

/// Reads a frame rate from the probing tool's output: a decimal number such
/// as `25` or `29.97`, or a fraction such as `30000/1001`, with white space
/// around it allowed.
pub fn parse_rate(out: &[u8]) -> (r: Result<Rate, ProbeFailure>)
    ensures
        r == rate_of(trimmed(out@)),
        r matches Ok(rate) ==> rate.wf(),
{
    let (lo, hi) = trim_bounds(out);
    let ghost t = out@.subrange(lo as int, hi as int);
    let q = find_byte(out, lo, hi, SLASH);
    proof {
        lemma_first_index_bounds(t, SLASH);
    }
    if q < hi {
        assert(t.subrange(0, q - lo) =~= out@.subrange(lo as int, q as int));
        assert(t.subrange(q - lo + 1, t.len() as int) =~= out@.subrange(q + 1, hi as int));
        let n = parse_integer(out, lo, q);
        let d = parse_integer(out, q + 1, hi);
        match (n, d) {
            (Some(n), Some(d)) => if d == 0 {
                Err(ProbeFailure::ZeroDenominator)
            } else {
                Ok(Rate { num: n, den: d })
            },
            _ => Err(ProbeFailure::Malformed),
        }
    } else {
        match parse_numeral(out, lo, hi) {
            Some((m, sc)) => {
                proof {
                    lemma_pow10_monotonic(0, sc as nat);
                }
                let p = power_of_ten(sc);
                Ok(Rate { num: m, den: p })
            },
            None => Err(ProbeFailure::Malformed),
        }
    }
}

/// Reads a duration in seconds from the probing tool's output (such as
/// `10.500000`), rounded down to whole seconds and held to `u32::MAX`.
pub fn parse_duration(out: &[u8]) -> (r: Result<u32, ProbeFailure>)
    ensures
        r == duration_of(trimmed(out@)),
{
    let (lo, hi) = trim_bounds(out);
    match parse_numeral(out, lo, hi) {
        Some((m, sc)) => {
            let mut secs: u64 = m;
            let mut j: u32 = 0;
            assert(pow10(0) == 1);
            while j < sc
                invariant
                    j <= sc,
                    secs as nat == (m as nat) / pow10(j as nat),
                decreases sc - j,
            {
                proof {
                    lemma_pow10_monotonic(j as nat, j as nat);
                    vstd::arithmetic::div_mod::lemma_div_denominator(
                        m as int,
                        pow10(j as nat) as int,
                        10,
                    );
                    assert(pow10((j + 1) as nat) == pow10(j as nat) * 10);
                }
                secs = secs / 10;
                j = j + 1;
            }
            if secs > u32::MAX as u64 {
                Ok(u32::MAX)
            } else {
                Ok(secs as u32)
            }
        },
        None => Err(ProbeFailure::Malformed),
    }
}

/// The frame rate from one probe: a failed run of the tool, else its output read by `parse_rate`.
pub fn read_rate(success: bool, out: &[u8]) -> (r: Result<Rate, ProbeFailure>)
    ensures
        r == probed_rate(success, out@),
        r matches Ok(rate) ==> rate.wf(),
{
    if success {
        parse_rate(out)
    } else {
        Err(ProbeFailure::ToolFailed)
    }
}

/// The duration from one probe: a failed run of the tool, else its output read by `parse_duration`.
pub fn read_duration(success: bool, out: &[u8]) -> (r: Result<u32, ProbeFailure>)
    ensures
        r == probed_duration(success, out@),
{
    if success {
        parse_duration(out)
    } else {
        Err(ProbeFailure::ToolFailed)
    }
}

} // verus!
