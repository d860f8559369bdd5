//! Comparisons of track durations used to keep the duration of a stream
//! track from shrinking.
use crate::music_renderer::time_utils::{flexible_fits, parse_time_flexible, spec_parse_time_flexible};
use crate::text::{parse_uint, spec_parse_uint, split_chars, split_seq, str_chars};
use vstd::prelude::*;

verus! {

/// Seconds of an `H:M:S` text made of exactly three `u32` pieces, computed
/// modulo 2^32 as the 32-bit arithmetic of the queue does.
pub open spec fn spec_hms3(s: Seq<char>) -> Option<nat> {
    let parts = split_seq(s, ':');
    if parts.len() != 3 {
        None
    } else {
        match (
            spec_parse_uint(parts[0], u32::MAX as nat),
            spec_parse_uint(parts[1], u32::MAX as nat),
            spec_parse_uint(parts[2], u32::MAX as nat),
        ) {
            (Some(h), Some(m), Some(x)) => Some(((h * 3600 + m * 60 + x) % 0x1_0000_0000) as nat),
            _ => None,
        }
    }
}

/// `new` is shorter than `old`, both read as three-piece `H:M:S` texts.
pub open spec fn spec_duration_decreased(old: Seq<char>, new: Seq<char>) -> bool {
    match (spec_hms3(old), spec_hms3(new)) {
        (Some(o), Some(n)) => n < o,
        _ => false,
    }
}

/// Seconds of a three-piece `H:M:S` text.
pub fn hms3_seconds(s: &str) -> (r: Option<u32>)
    ensures
        match r {
            Some(v) => spec_hms3(s@) == Some(v as nat),
            None => spec_hms3(s@) is None,
        },
{
    let cs = str_chars(s);
    let parts = split_chars(cs.as_slice(), ':');
    if parts.len() != 3 {
        return None;
    }
    let h = match parse_uint(parts[0].as_slice(), u32::MAX as u64) {
        Some(v) => v as u32,
        None => {
            return None;
        },
    };
    let m = match parse_uint(parts[1].as_slice(), u32::MAX as u64) {
        Some(v) => v as u32,
        None => {
            return None;
        },
    };
    let x = match parse_uint(parts[2].as_slice(), u32::MAX as u64) {
        Some(v) => v as u32,
        None => {
            return None;
        },
    };
    let total: u64 = (h as u64) * 3600 + (m as u64) * 60 + (x as u64);
    let r = (total % 0x1_0000_0000) as u32;
    Some(r)
}

/// Whether a duration decreased (three-piece `H:M:S` texts; unreadable
/// durations never count as a decrease).
pub fn duration_decreased(old_duration: &str, new_duration: &str) -> (r: bool)
    ensures
        r == spec_duration_decreased(old_duration@, new_duration@),
{
    match (hms3_seconds(old_duration), hms3_seconds(new_duration)) {
        (Some(o), Some(n)) => n < o,
        _ => false,
    }
}

/// `new` is shorter than `old`, both read by the flexible time parser.
pub open spec fn spec_stream_duration_decreased(old: Seq<char>, new: Seq<char>) -> bool {
    match (spec_parse_time_flexible(old), spec_parse_time_flexible(new)) {
        (Some(o), Some(n)) => n < o,
        _ => false,
    }
}

/// `new` is longer than `old`, both read by the flexible time parser.
pub open spec fn spec_stream_duration_increased(old: Seq<char>, new: Seq<char>) -> bool {
    match (spec_parse_time_flexible(old), spec_parse_time_flexible(new)) {
        (Some(o), Some(n)) => n > o,
        _ => false,
    }
}

/// Returns true if `new_dur` < `old_dur` (both parseable as HH:MM:SS/MM:SS/SS).
pub fn stream_duration_decreased(old_dur: &str, new_dur: &str) -> (r: bool)
    requires
        flexible_fits(old_dur@),
        flexible_fits(new_dur@),
    ensures
        r == spec_stream_duration_decreased(old_dur@, new_dur@),
{
    match (parse_time_flexible(old_dur), parse_time_flexible(new_dur)) {
        (Ok(o), Ok(n)) => n < o,
        _ => false,
    }
}

/// Returns true if `new_dur` > `old_dur` (both parseable as HH:MM:SS/MM:SS/SS).
pub fn stream_duration_increased(old_dur: &str, new_dur: &str) -> (r: bool)
    requires
        flexible_fits(old_dur@),
        flexible_fits(new_dur@),
    ensures
        r == spec_stream_duration_increased(old_dur@, new_dur@),
{
    match (parse_time_flexible(old_dur), parse_time_flexible(new_dur)) {
        (Ok(o), Ok(n)) => n > o,
        _ => false,
    }
}

} // verus!
