//! Time formatting and parsing utilities for music renderers.
//!
//! Conversions between `HH:MM:SS` strings (the UPnP notation), seconds and
//! milliseconds.
use crate::error::{msg2, ControlPointError};
use crate::text::{
    all_digits, dec, digit_char, digit_value, digits_value, is_digit, pad2, parse_uint, push_pad2, spec_parse_uint,
    split_chars, split_seq, str_chars, string_from_chars,
};
use vstd::prelude::*;

verus! {

/// `HH:MM:SS` rendering of a number of seconds; each field has at least two
/// digits and the hours may have more.
pub open spec fn hhmmss(seconds: nat) -> Seq<char> {
    pad2(dec(seconds / 3600)) + seq![':'] + pad2(dec((seconds % 3600) / 60)) + seq![':'] + pad2(
        dec(seconds % 60),
    )
}

/// Total of `HH:MM:SS`, `MM:SS` or `SS` pieces: each piece shifts the total by
/// sixty. `None` when a piece is not an unsigned 32-bit number.
pub open spec fn flexible_total(parts: Seq<Seq<char>>) -> Option<int>
    decreases parts.len(),
{
    if parts.len() == 0 {
        Some(0)
    } else {
        match (flexible_total(parts.drop_last()), spec_parse_uint(parts.last(), u32::MAX as nat)) {
            (Some(t), Some(v)) => Some(t * 60 + v),
            _ => None,
        }
    }
}

/// The running total of the flexible parser never leaves the `u32` range.
pub open spec fn flexible_fits(input: Seq<char>) -> bool {
    let parts = split_seq(input, ':');
    parts.len() <= 3 ==> forall|k: int|
        0 <= k <= parts.len() ==> match #[trigger] flexible_total(parts.take(k)) {
            Some(t) => t <= u32::MAX,
            None => true,
        }
}

/// Result of the flexible parser: `Some(total)` when it succeeds.
pub open spec fn spec_parse_time_flexible(input: Seq<char>) -> Option<int> {
    let parts = split_seq(input, ':');
    if parts.len() > 3 {
        None
    } else {
        flexible_total(parts)
    }
}

/// The three pieces of a strict `HH:MM:SS` string, each parsed as a `u64`.
pub open spec fn strict_fields(input: Seq<char>) -> Option<(nat, nat, nat)> {
    let parts = split_seq(input, ':');
    if parts.len() != 3 {
        None
    } else {
        match (
            spec_parse_uint(parts[0], u64::MAX as nat),
            spec_parse_uint(parts[1], u64::MAX as nat),
            spec_parse_uint(parts[2], u64::MAX as nat),
        ) {
            (Some(h), Some(m), Some(s)) => Some((h, m, s)),
            _ => None,
        }
    }
}

/// Result of the strict parser: `Some(seconds)` when it succeeds.
pub open spec fn spec_parse_hhmmss_strict(input: Seq<char>) -> Option<int> {
    match strict_fields(input) {
        Some((h, m, s)) => if m < 60 && s < 60 {
            Some((h * 3600 + m * 60 + s) as int)
        } else {
            None
        },
        None => None,
    }
}

/// The strict parser's result fits in a `u64` whenever it succeeds.
pub open spec fn strict_fits(input: Seq<char>) -> bool {
    match spec_parse_hhmmss_strict(input) {
        Some(v) => v <= u64::MAX,
        None => true,
    }
}

/// Formats a duration in seconds as HH:MM:SS.
pub fn format_hhmmss(seconds: u64) -> (r: String)
    ensures
        r@ == hhmmss(seconds as nat),
{
    let hours = seconds / 3600;
    let minutes = (seconds % 3600) / 60;
    let secs = seconds % 60;
    let mut out: Vec<char> = Vec::new();
    push_pad2(&mut out, hours);
    out.push(':');
    push_pad2(&mut out, minutes);
    out.push(':');
    push_pad2(&mut out, secs);
    assert(out@ =~= hhmmss(seconds as nat));
    string_from_chars(out.as_slice())
}

/// Formats a duration in seconds as HH:MM:SS (u32 variant).
pub fn format_hhmmss_u32(seconds: u32) -> (r: String)
    ensures
        r@ == hhmmss(seconds as nat),
{
    format_hhmmss(seconds as u64)
}

proof fn lemma_flexible_monotone(parts: Seq<Seq<char>>, k: int)
    requires
        0 <= k <= parts.len(),
        flexible_total(parts) is Some,
    ensures
        flexible_total(parts.take(k)) is Some,
        0 <= flexible_total(parts.take(k))->0 <= flexible_total(parts)->0,
    decreases parts.len(),
{
    if parts.len() > 0 {
        lemma_flexible_monotone(parts.drop_last(), parts.len() - 1);
        assert(parts.drop_last().take(parts.len() - 1) =~= parts.drop_last());
    }
    if k < parts.len() {
        assert(parts.drop_last().take(k) =~= parts.take(k));
        lemma_flexible_monotone(parts.drop_last(), k);
    } else {
        assert(parts.take(k) =~= parts);
    }
}

/// Parses a time string in HH:MM:SS, MM:SS, or SS format to seconds.
///
/// Fails when the input has more than three pieces or when a piece is not an
/// unsigned 32-bit number.
pub fn parse_time_flexible(input: &str) -> (r: Result<u32, ControlPointError>)
    requires
        flexible_fits(input@),
    ensures
        r is Ok <==> spec_parse_time_flexible(input@) is Some,
        r matches Ok(v) ==> spec_parse_time_flexible(input@) == Some(v as int),
        r matches Err(e) ==> e is InvalidTimeFormat,
{
    let chars = str_chars(input);
    let parts = split_chars(chars.as_slice(), ':');
    let ghost sp = split_seq(input@, ':');
    if parts.len() > 3 {
        return Err(ControlPointError::InvalidTimeFormat(msg2("Invalid time format: expected HH:MM:SS, MM:SS, or SS: ", input)));
    }
    let mut total: u32 = 0;
    let mut i: usize = 0;
    while i < parts.len()
        invariant
            sp == split_seq(input@, ':'),
            parts@.len() == sp.len(),
            sp.len() <= 3,
            forall|k: int| 0 <= k < parts@.len() ==> #[trigger] parts@[k]@ == sp[k],
            flexible_fits(input@),
            i <= parts@.len(),
            flexible_total(sp.take(i as int)) == Some(total as int),
        decreases parts@.len() - i,
    {
        let v = parse_uint(parts[i].as_slice(), u32::MAX as u64);
        proof {
            assert(sp.take(i + 1).drop_last() =~= sp.take(i as int));
            assert(sp.take(i + 1).last() == sp[i as int]);
        }
        match v {
            None => {
                proof {
                    assert(flexible_total(sp.take(i + 1)) is None);
                    if flexible_total(sp) is Some {
                        lemma_flexible_monotone(sp, i + 1);
                    }
                }
                return Err(ControlPointError::InvalidTimeFormat(msg2("Invalid numeric value in time string: ", input)));
            },
            Some(value) => {
                proof {
                    let kk = i + 1;
                    assert(0 <= kk <= sp.len());
                    assert(match flexible_total(sp.take(kk)) {
                        Some(t) => t <= u32::MAX,
                        None => true,
                    });
                }
                total = total * 60 + value as u32;
            },
        }
        i = i + 1;
    }
    assert(sp.take(sp.len() as int) =~= sp);
    Ok(total)
}

/// Parses a strict HH:MM:SS format to seconds.
///
/// Fails unless there are exactly three pieces, each an unsigned 64-bit
/// number, with minutes and seconds below 60.
pub fn parse_hhmmss_strict(input: &str) -> (r: Result<u64, ControlPointError>)
    requires
        strict_fits(input@),
    ensures
        r is Ok <==> spec_parse_hhmmss_strict(input@) is Some,
        r matches Ok(v) ==> spec_parse_hhmmss_strict(input@) == Some(v as int),
        r matches Err(e) ==> e is InvalidTimeFormat,
{
    let chars = str_chars(input);
    let parts = split_chars(chars.as_slice(), ':');
    if parts.len() != 3 {
        return Err(ControlPointError::InvalidTimeFormat(msg2("Invalid time format: expected exactly HH:MM:SS: ", input)));
    }
    let hours = match parse_uint(parts[0].as_slice(), u64::MAX) {
        Some(h) => h,
        None => {
            return Err(ControlPointError::InvalidTimeFormat(msg2("Invalid hour component in ", input)));
        },
    };
    let minutes = match parse_uint(parts[1].as_slice(), u64::MAX) {
        Some(m) => m,
        None => {
            return Err(ControlPointError::InvalidTimeFormat(msg2("Invalid minute component in ", input)));
        },
    };
    let seconds = match parse_uint(parts[2].as_slice(), u64::MAX) {
        Some(s) => s,
        None => {
            return Err(ControlPointError::InvalidTimeFormat(msg2("Invalid second component in ", input)));
        },
    };
    if minutes >= 60 || seconds >= 60 {
        return Err(ControlPointError::InvalidTimeFormat(msg2("Minutes and seconds must be < 60: ", input)));
    }
    Ok(hours * 3600 + minutes * 60 + seconds)
}

/// Converts milliseconds to seconds (rounding down).
pub fn ms_to_seconds(milliseconds: u64) -> (r: u64)
    ensures
        r == milliseconds / 1000,
{
    milliseconds / 1000
}

/// Converts seconds to milliseconds.
pub fn seconds_to_ms(seconds: u64) -> (r: u64)
    requires
        seconds * 1000 <= u64::MAX,
    ensures
        r == seconds * 1000,
{
    seconds * 1000
}

proof fn lemma_digit_char(d: nat)
    requires
        d < 10,
    ensures
        is_digit(digit_char(d)),
        digit_value(digit_char(d)) == d,
{
    assert(digit_char(d) as u32 == d + 48);
}

proof fn lemma_dec_digits(n: nat)
    ensures
        dec(n).len() >= 1,
        all_digits(dec(n)),
        digits_value(dec(n)) == n,
    decreases n,
{
    if n < 10 {
        lemma_digit_char(n);
        let d = dec(n);
        assert(d.drop_last() =~= Seq::<char>::empty());
        assert(digits_value(d) == 10 * digits_value(d.drop_last()) + digit_value(d.last()));
    } else {
        lemma_dec_digits(n / 10);
        lemma_digit_char(n % 10);
        let d = dec(n);
        assert(d == dec(n / 10).push(digit_char(n % 10)));
        assert(d.drop_last() =~= dec(n / 10));
        assert(d.last() == digit_char(n % 10));
        assert(digits_value(d) == 10 * digits_value(d.drop_last()) + digit_value(d.last()));
        assert(10 * (n / 10) + n % 10 == n);
        assert forall|i: int| 0 <= i < d.len() implies is_digit(#[trigger] d[i]) by {
            if i < d.len() - 1 {
                assert(d[i] == dec(n / 10)[i]);
            }
        }
    }
}

proof fn lemma_zero_in_front(s: Seq<char>)
    requires
        all_digits(s),
    ensures
        all_digits(seq!['0'] + s),
        digits_value(seq!['0'] + s) == digits_value(s),
    decreases s.len(),
{
    let z = seq!['0'] + s;
    assert forall|i: int| 0 <= i < z.len() implies is_digit(#[trigger] z[i]) by {
        if i > 0 {
            assert(z[i] == s[i - 1]);
        }
    }
    assert(digits_value(z) == 10 * digits_value(z.drop_last()) + digit_value(z.last()));
    if s.len() == 0 {
        assert(z.drop_last() =~= Seq::<char>::empty());
        assert(digit_value('0') == 0);
    } else {
        assert(z.drop_last() =~= seq!['0'] + s.drop_last());
        assert(z.last() == s.last());
        assert(all_digits(s.drop_last()));
        lemma_zero_in_front(s.drop_last());
        assert(digits_value(s) == 10 * digits_value(s.drop_last()) + digit_value(s.last()));
    }
}

proof fn lemma_pad2_digits(s: Seq<char>)
    requires
        s.len() >= 1,
        all_digits(s),
    ensures
        pad2(s).len() >= 1,
        all_digits(pad2(s)),
        digits_value(pad2(s)) == digits_value(s),
{
    if s.len() < 2 {
        assert(pad2(s) =~= seq!['0'] + s);
        lemma_zero_in_front(s);
    }
}

/// No `:` in a string of digits.
proof fn lemma_digits_no_colon(s: Seq<char>)
    requires
        all_digits(s),
    ensures
        forall|i: int| 0 <= i < s.len() ==> #[trigger] s[i] != ':',
{
    assert forall|i: int| 0 <= i < s.len() implies #[trigger] s[i] != ':' by {
        assert(is_digit(s[i]));
    }
}

proof fn lemma_split_without_colon(c: Seq<char>)
    requires
        forall|i: int| 0 <= i < c.len() ==> #[trigger] c[i] != ':',
    ensures
        split_seq(c, ':') == seq![c],
    decreases c.len(),
{
    if c.len() > 0 {
        let t = c.drop_first();
        assert forall|i: int| 0 <= i < t.len() implies #[trigger] t[i] != ':' by {
            assert(t[i] == c[i + 1]);
        }
        lemma_split_without_colon(t);
        assert(c[0] != ':');
        assert(seq![c[0]] + t =~= c);
        assert(split_seq(c, ':') =~= seq![c]);
    } else {
        assert(c =~= Seq::<char>::empty());
    }
}

proof fn lemma_split_at_colon(a: Seq<char>, rest: Seq<char>)
    requires
        forall|i: int| 0 <= i < a.len() ==> #[trigger] a[i] != ':',
    ensures
        split_seq(a + seq![':'] + rest, ':') == seq![a] + split_seq(rest, ':'),
    decreases a.len(),
{
    let s = a + seq![':'] + rest;
    if a.len() == 0 {
        assert(s =~= seq![':'] + rest);
        assert(s.drop_first() =~= rest);
        assert(a =~= Seq::<char>::empty());
    } else {
        let t = a.drop_first();
        assert forall|i: int| 0 <= i < t.len() implies #[trigger] t[i] != ':' by {
            assert(t[i] == a[i + 1]);
        }
        lemma_split_at_colon(t, rest);
        assert(s.drop_first() =~= t + seq![':'] + rest);
        assert(s[0] == a[0]);
        assert(seq![a[0]] + t =~= a);
        assert(split_seq(s, ':') =~= seq![a] + split_seq(rest, ':'));
    }
}

proof fn lemma_hhmmss_pieces(seconds: nat)
    ensures
        split_seq(hhmmss(seconds), ':') == seq![
            pad2(dec(seconds / 3600)),
            pad2(dec((seconds % 3600) / 60)),
            pad2(dec(seconds % 60)),
        ],
        digits_value(pad2(dec(seconds / 3600))) == seconds / 3600,
        digits_value(pad2(dec((seconds % 3600) / 60))) == (seconds % 3600) / 60,
        digits_value(pad2(dec(seconds % 60))) == seconds % 60,
        all_digits(pad2(dec(seconds / 3600))) && pad2(dec(seconds / 3600)).len() >= 1,
        all_digits(pad2(dec((seconds % 3600) / 60))) && pad2(dec((seconds % 3600) / 60)).len() >= 1,
        all_digits(pad2(dec(seconds % 60))) && pad2(dec(seconds % 60)).len() >= 1,
{
    let a = pad2(dec(seconds / 3600));
    let b = pad2(dec((seconds % 3600) / 60));
    let c = pad2(dec(seconds % 60));
    lemma_dec_digits(seconds / 3600);
    lemma_dec_digits((seconds % 3600) / 60);
    lemma_dec_digits(seconds % 60);
    lemma_pad2_digits(dec(seconds / 3600));
    lemma_pad2_digits(dec((seconds % 3600) / 60));
    lemma_pad2_digits(dec(seconds % 60));
    lemma_digits_no_colon(a);
    lemma_digits_no_colon(b);
    lemma_digits_no_colon(c);
    lemma_split_without_colon(c);
    lemma_split_at_colon(b, c);
    assert(hhmmss(seconds) =~= a + seq![':'] + (b + seq![':'] + c));
    lemma_split_at_colon(a, b + seq![':'] + c);
    assert(split_seq(hhmmss(seconds), ':') =~= seq![a, b, c]);
}

/// What the formatter writes, both parsers read back: the strict parser for
/// any duration, the flexible one for any that fits its 32-bit total.
pub proof fn law_parsers_read_back_formatted_time(seconds: nat)
    requires
        seconds / 3600 <= u64::MAX,
    ensures
        spec_parse_hhmmss_strict(hhmmss(seconds)) == Some(seconds as int),
        seconds <= u32::MAX ==> spec_parse_time_flexible(hhmmss(seconds)) == Some(seconds as int),
{
    let h = seconds / 3600;
    let m = (seconds % 3600) / 60;
    let s = seconds % 60;
    lemma_hhmmss_pieces(seconds);
    let parts = split_seq(hhmmss(seconds), ':');
    assert(h * 3600 + m * 60 + s == seconds) by (nonlinear_arith)
        requires
            h == seconds / 3600,
            m == (seconds % 3600) / 60,
            s == seconds % 60,
    ;
    assert(m < 60 && s < 60) by (nonlinear_arith)
        requires
            m == (seconds % 3600) / 60,
            s == seconds % 60,
    ;
    assert(!(parts[0].len() > 0 && parts[0][0] == '+'));
    assert(!(parts[1].len() > 0 && parts[1][0] == '+'));
    assert(!(parts[2].len() > 0 && parts[2][0] == '+'));
    assert(spec_parse_uint(parts[0], u64::MAX as nat) == Some(h));
    assert(spec_parse_uint(parts[1], u64::MAX as nat) == Some(m));
    assert(spec_parse_uint(parts[2], u64::MAX as nat) == Some(s));
    assert(strict_fields(hhmmss(seconds)) == Some((h, m, s)));
    if seconds <= u32::MAX {
        assert(h <= seconds && m <= seconds && s <= seconds) by (nonlinear_arith)
            requires
                h == seconds / 3600,
                m == (seconds % 3600) / 60,
                s == seconds % 60,
        ;
        assert(parts.drop_last() =~= seq![parts[0], parts[1]]);
        assert(parts.drop_last().drop_last() =~= seq![parts[0]]);
        assert(parts.drop_last().drop_last().drop_last() =~= Seq::<Seq<char>>::empty());
        assert(spec_parse_uint(parts[0], u32::MAX as nat) == Some(h));
        assert(spec_parse_uint(parts[1], u32::MAX as nat) == Some(m));
        assert(spec_parse_uint(parts[2], u32::MAX as nat) == Some(s));
        assert(seq![parts[0]].drop_last() =~= Seq::<Seq<char>>::empty());
        assert(flexible_total(Seq::<Seq<char>>::empty()) == Some(0int));
        assert(flexible_total(seq![parts[0]]) == Some(h as int));
        assert(flexible_total(seq![parts[0], parts[1]]) == Some((h * 60 + m) as int));
        assert(flexible_total(parts) == Some(((h * 60 + m) * 60 + s) as int));
    }
}

} // verus!
