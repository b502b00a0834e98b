//! Decisions on the capture side: the sample rate to ask the device for and how
//! interleaved capture blocks split into frames.

use crate::colors::{lower_of, lowercase};
use vstd::prelude::*;
use vstd::string::StringExecFns;

verus! {

/// The sample rate asked for when the device's own is close to it.
pub const PREFERRED_SAMPLE_RATE: u32 = 44100;

/// How far, in Hz, the device's rate may be from the preferred one to be replaced by it.
pub const SAMPLE_RATE_TOLERANCE: u32 = 1000;

/// The distance between two rates.
pub open spec fn rate_distance(a: u32, b: u32) -> int {
    if a >= b {
        a - b
    } else {
        b - a
    }
}

/// The sample rate to capture at, given the device's default rate: the
/// preferred rate when the device's is within the tolerance of it, else the
/// device's own.
pub fn choose_sample_rate(device_rate: u32) -> (r: u32)
    ensures
        rate_distance(device_rate, PREFERRED_SAMPLE_RATE) < SAMPLE_RATE_TOLERANCE ==> r
            == PREFERRED_SAMPLE_RATE,
        rate_distance(device_rate, PREFERRED_SAMPLE_RATE) >= SAMPLE_RATE_TOLERANCE ==> r
            == device_rate,
{
    let distance: u32 = if device_rate >= PREFERRED_SAMPLE_RATE {
        device_rate - PREFERRED_SAMPLE_RATE
    } else {
        PREFERRED_SAMPLE_RATE - device_rate
    };
    if distance < SAMPLE_RATE_TOLERANCE {
        PREFERRED_SAMPLE_RATE
    } else {
        device_rate
    }
}

/// Whether `pattern` occurs in `text` as a run of consecutive characters.
pub open spec fn has_substring(text: Seq<char>, pattern: Seq<char>) -> bool {
    exists|i: int| 0 <= i <= text.len() - pattern.len() && #[trigger] text.subrange(i, i + pattern.len()) == pattern
}

/// Relies on `str::contains` with a string pattern: whether `pattern` occurs in `text`.
#[verifier::external_body]
fn contains_str(text: &str, pattern: &str) -> (r: bool)
    ensures
        r == has_substring(text@, pattern@),
{
    text.contains(pattern)
}

/// Whether a device called `device_name` is the one asked for as `wanted`: the
/// wanted name occurs in the device's name, letter case aside.
pub fn device_name_matches(device_name: &str, wanted: &str) -> (r: bool)
    ensures
        r == has_substring(lower_of(device_name@), lower_of(wanted@)),
{
    let device = lowercase(device_name);
    let asked = lowercase(wanted);
    contains_str(device.as_str(), asked.as_str())
}

/// The decimal digit for `d < 10`.
pub open spec fn digit_char(d: nat) -> char {
    if d == 0 {
        '0'
    } else if d == 1 {
        '1'
    } else if d == 2 {
        '2'
    } else if d == 3 {
        '3'
    } else if d == 4 {
        '4'
    } else if d == 5 {
        '5'
    } else if d == 6 {
        '6'
    } else if d == 7 {
        '7'
    } else if d == 8 {
        '8'
    } else {
        '9'
    }
}

/// The decimal digits of `n`, without leading zeros.
pub open spec fn decimal(n: nat) -> Seq<char>
    decreases n,
{
    if n < 10 {
        seq![digit_char(n)]
    } else {
        decimal(n / 10).push(digit_char(n % 10))
    }
}

/// Relies on `ToString` for `usize`: the decimal digits of `n`.
#[verifier::external_body]
fn decimal_string(n: usize) -> (r: String)
    ensures
        r@ == decimal(n as nat),
{
    n.to_string()
}

/// The line listing device number `k` called `name`.
pub open spec fn device_line(k: nat, name: Seq<char>) -> Seq<char> {
    "  "@ + decimal(k) + ". "@ + name
}

/// The lines for the devices whose names could be read, each numbered by its
/// position (from 1) among all devices.
pub open spec fn device_lines(names: Seq<Option<String>>) -> Seq<Seq<char>>
    decreases names.len(),
{
    if names.len() == 0 {
        Seq::empty()
    } else {
        let rest = device_lines(names.drop_last());
        match names.last() {
            Some(name) => rest.push(device_line(names.len(), name@)),
            None => rest,
        }
    }
}

/// The line shown when no device could be listed.
pub open spec fn no_devices_line() -> Seq<char> {
    "  No input devices found"@
}

/// The listing of input devices: one numbered line per device whose name could
/// be read (`None` for one whose name could not), or a single line saying there
/// are none.
pub fn device_listing(names: &Vec<Option<String>>) -> (r: Vec<String>)
    ensures
        device_lines(names@).len() > 0 ==> r@.map_values(|s: String| s@) == device_lines(names@),
        device_lines(names@).len() == 0 ==> r@.map_values(|s: String| s@) == seq![no_devices_line()],
{
    let mut lines: Vec<String> = Vec::new();
    let mut i: usize = 0;
    proof {
        assert(names@.take(0) =~= Seq::<Option<String>>::empty());
    }
    while i < names.len()
        invariant
            i <= names@.len(),
            lines@.map_values(|s: String| s@) =~= device_lines(names@.take(i as int)),
        decreases names@.len() - i,
    {
        proof {
            assert(names@.take(i + 1).drop_last() =~= names@.take(i as int));
        }
        match &names[i] {
            Some(name) => {
                let number = decimal_string(i + 1);
                let line = String::from_str("  ").concat(number.as_str()).concat(". ").concat(
                    name.as_str(),
                );
                lines.push(line);
            },
            None => {},
        }
        i = i + 1;
    }
    proof {
        assert(names@.take(names@.len() as int) =~= names@);
    }
    if lines.len() == 0 {
        let mut only: Vec<String> = Vec::new();
        only.push(String::from_str("  No input devices found"));
        proof {
            assert(only@.map_values(|s: String| s@) =~= seq![no_devices_line()]);
        }
        only
    } else {
        lines
    }
}

/// The number of whole frames in an interleaved block of `len` samples over
/// `channels` channels; a trailing partial frame is left out.
pub fn whole_frames(len: usize, channels: usize) -> (n: usize)
    requires
        channels > 0,
    ensures
        n == len / channels,
        n * channels <= len,
        len - n * channels < channels,
{
    let n = len / channels;
    assert(n * channels <= len && len - n * channels < channels) by (nonlinear_arith)
        requires
            n == len / channels,
            channels > 0,
    ;
    n
}

} // verus!
