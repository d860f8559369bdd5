//! Base64 decoding and the big-endian id arrays of OpenHome playlists.
use crate::error::{msg, ControlPointError};
use vstd::prelude::*;

verus! {

/// Value of a base64 alphabet character.
pub open spec fn b64_value(c: char) -> Option<nat> {
    if 'A' <= c && c <= 'Z' {
        Some(((c as u32) - ('A' as u32)) as nat)
    } else if 'a' <= c && c <= 'z' {
        Some(((c as u32) - ('a' as u32) + 26) as nat)
    } else if '0' <= c && c <= '9' {
        Some(((c as u32) - ('0' as u32) + 52) as nat)
    } else if c == '+' {
        Some(62)
    } else if c == '/' {
        Some(63)
    } else {
        None
    }
}

/// Characters skipped by the decoder.
pub open spec fn b64_skipped(c: char) -> bool {
    c == '\r' || c == '\n' || c == ' ' || c == '\t'
}

/// The 6-bit groups of an input: decoding stops at the first `=`, skips line
/// breaks, spaces and tabs, and fails on any other character outside the
/// alphabet.
pub open spec fn b64_sextets(s: Seq<char>) -> Option<Seq<nat>>
    decreases s.len(),
{
    if s.len() == 0 || s[0] == '=' {
        Some(Seq::empty())
    } else if b64_skipped(s[0]) {
        b64_sextets(s.drop_first())
    } else {
        match (b64_value(s[0]), b64_sextets(s.drop_first())) {
            (Some(v), Some(rest)) => Some(seq![v] + rest),
            _ => None,
        }
    }
}

/// Bytes carried by a sequence of 6-bit groups: every four groups give three
/// bytes; a trailing group of three gives two bytes, of two gives one byte,
/// of one gives none.
pub open spec fn b64_bytes(q: Seq<nat>) -> Seq<u8>
    decreases q.len(),
{
    if q.len() >= 4 {
        seq![
            (q[0] * 4 + q[1] / 16) as u8,
            ((q[1] % 16) * 16 + q[2] / 4) as u8,
            ((q[2] % 4) * 64 + q[3]) as u8,
        ] + b64_bytes(q.skip(4))
    } else if q.len() == 3 {
        seq![(q[0] * 4 + q[1] / 16) as u8, ((q[1] % 16) * 16 + q[2] / 4) as u8]
    } else if q.len() == 2 {
        seq![(q[0] * 4 + q[1] / 16) as u8]
    } else {
        Seq::empty()
    }
}

/// Result of decoding: `None` when a character outside the alphabet comes
/// before the first `=`.
pub open spec fn spec_decode_base64(s: Seq<char>) -> Option<Seq<u8>> {
    match b64_sextets(s) {
        Some(q) => Some(b64_bytes(q)),
        None => None,
    }
}

fn sextet_of(c: char) -> (r: Option<u8>)
    ensures
        match r {
            Some(v) => b64_value(c) == Some(v as nat) && v < 64,
            None => b64_value(c) is None,
        },
{
    if c >= 'A' && c <= 'Z' {
        Some((c as u32 - 'A' as u32) as u8)
    } else if c >= 'a' && c <= 'z' {
        Some((c as u32 - 'a' as u32 + 26) as u8)
    } else if c >= '0' && c <= '9' {
        Some((c as u32 - '0' as u32 + 52) as u8)
    } else if c == '+' {
        Some(62)
    } else if c == '/' {
        Some(63)
    } else {
        None
    }
}

proof fn lemma_sextets_step(s: Seq<char>, i: int)
    requires
        0 <= i < s.len(),
        s[i] != '=',
    ensures
        b64_skipped(s[i]) ==> b64_sextets(s.skip(i)) == b64_sextets(s.skip(i + 1)),
        !b64_skipped(s[i]) ==> b64_sextets(s.skip(i)) == match (b64_value(s[i]), b64_sextets(s.skip(i + 1))) {
            (Some(v), Some(rest)) => Some(seq![v] + rest),
            _ => None,
        },
{
    assert(s.skip(i).drop_first() =~= s.skip(i + 1));
    assert(s.skip(i)[0] == s[i]);
}

/// The 6-bit groups of an input, or `None` on a character outside the alphabet.
fn collect_sextets(s: &[char]) -> (r: Option<Vec<u8>>)
    ensures
        match r {
            Some(q) => b64_sextets(s@) == Some(q@.map_values(|x: u8| x as nat)) && forall|k: int|
                0 <= k < q@.len() ==> #[trigger] q@[k] < 64,
            None => b64_sextets(s@) is None,
        },
{
    let mut out: Vec<u8> = Vec::new();
    let mut i: usize = 0;
    assert(s@.skip(0) =~= s@);
    while i < s.len()
        invariant
            i <= s@.len(),
            forall|k: int| 0 <= k < out@.len() ==> #[trigger] out@[k] < 64,
            b64_sextets(s@) == match b64_sextets(s@.skip(i as int)) {
                Some(rest) => Some(out@.map_values(|x: u8| x as nat) + rest),
                None => None,
            },
        decreases s@.len() - i,
    {
        let c = s[i];
        if c == '=' {
            proof {
                assert(s@.skip(i as int)[0] == '=');
                assert(out@.map_values(|x: u8| x as nat) + Seq::<nat>::empty() =~= out@.map_values(|x: u8| x as nat));
            }
            return Some(out);
        }
        proof {
            lemma_sextets_step(s@, i as int);
        }
        if c == '\r' || c == '\n' || c == ' ' || c == '\t' {
        } else {
            match sextet_of(c) {
                None => {
                    return None;
                },
                Some(v) => {
                    let ghost before = out@.map_values(|x: u8| x as nat);
                    out.push(v);
                    proof {
                        assert(out@.map_values(|x: u8| x as nat) =~= before.push(v as nat));
                        match b64_sextets(s@.skip(i + 1)) {
                            Some(rest) => {
                                assert(before + (seq![v as nat] + rest) =~= before.push(v as nat) + rest);
                            },
                            None => {},
                        }
                    }
                },
            }
        }
        i = i + 1;
    }
    proof {
        assert(s@.skip(i as int).len() == 0);
        assert(out@.map_values(|x: u8| x as nat) + Seq::<nat>::empty() =~= out@.map_values(|x: u8| x as nat));
    }
    Some(out)
}

proof fn lemma_bytes_split(q: Seq<nat>, i: int)
    requires
        0 <= i,
        i % 4 == 0,
        i + 4 <= q.len(),
    ensures
        b64_bytes(q.skip(i)) == seq![
            (q[i] * 4 + q[i + 1] / 16) as u8,
            ((q[i + 1] % 16) * 16 + q[i + 2] / 4) as u8,
            ((q[i + 2] % 4) * 64 + q[i + 3]) as u8,
        ] + b64_bytes(q.skip(i + 4)),
{
    assert(q.skip(i).skip(4) =~= q.skip(i + 4));
}

/// Decodes base64 text.
///
/// Decoding stops at the first `=`; line breaks, spaces and tabs are
/// skipped; any other character outside the alphabet is an error.
pub fn decode_base64(input: &str) -> (r: Result<Vec<u8>, ControlPointError>)
    ensures
        r is Ok <==> spec_decode_base64(input@) is Some,
        r matches Ok(b) ==> spec_decode_base64(input@) == Some(b@),
        r matches Err(e) ==> e is SoapAction,
{
    let chars = crate::text::str_chars(input);
    let q = match collect_sextets(chars.as_slice()) {
        Some(q) => q,
        None => {
            return Err(ControlPointError::SoapAction(msg("Invalid base64 character")));
        },
    };
    let ghost qs = q@.map_values(|x: u8| x as nat);
    let mut out: Vec<u8> = Vec::new();
    let mut i: usize = 0;
    assert(qs.skip(0) =~= qs);
    while q.len() - i >= 4
        invariant
            i <= q@.len(),
            i % 4 == 0,
            qs == q@.map_values(|x: u8| x as nat),
            forall|k: int| 0 <= k < q@.len() ==> #[trigger] q@[k] < 64,
            b64_bytes(qs) == out@ + b64_bytes(qs.skip(i as int)),
        decreases q@.len() - i,
    {
        let a = q[i];
        let b = q[i + 1];
        let c = q[i + 2];
        let d = q[i + 3];
        proof {
            lemma_bytes_split(qs, i as int);
            assert(qs[i as int] == a as nat);
            assert(qs[i + 1] == b as nat);
            assert(qs[i + 2] == c as nat);
            assert(qs[i + 3] == d as nat);
        }
        let ghost before = out@;
        out.push(a * 4 + b / 16);
        out.push((b % 16) * 16 + c / 4);
        out.push((c % 4) * 64 + d);
        proof {
            assert(out@ =~= before + seq![
                (qs[i as int] * 4 + qs[i + 1] / 16) as u8,
                ((qs[i + 1] % 16) * 16 + qs[i + 2] / 4) as u8,
                ((qs[i + 2] % 4) * 64 + qs[i + 3]) as u8,
            ]);
        }
        i = i + 4;
    }
    let rest = q.len() - i;
    let ghost tail = qs.skip(i as int);
    proof {
        assert(tail.len() == rest);
    }
    if rest == 3 {
        let a = q[i];
        let b = q[i + 1];
        let c = q[i + 2];
        proof {
            assert(tail[0] == a as nat);
            assert(tail[1] == b as nat);
            assert(tail[2] == c as nat);
        }
        out.push(a * 4 + b / 16);
        out.push((b % 16) * 16 + c / 4);
    } else if rest == 2 {
        let a = q[i];
        let b = q[i + 1];
        proof {
            assert(tail[0] == a as nat);
            assert(tail[1] == b as nat);
        }
        out.push(a * 4 + b / 16);
    }
    assert(out@ =~= b64_bytes(qs));
    Ok(out)
}

/// Big-endian `u32` values of consecutive groups of four bytes.
pub open spec fn be_u32s(b: Seq<u8>) -> Seq<u32> {
    Seq::new(
        b.len() / 4,
        |k: int|
            (b[4 * k] as nat * 16777216 + b[4 * k + 1] as nat * 65536 + b[4 * k + 2] as nat * 256
                + b[4 * k + 3] as nat) as u32,
    )
}

/// Reads consecutive big-endian `u32` values.
pub fn u32s_from_be_bytes(bytes: &[u8]) -> (r: Vec<u32>)
    requires
        bytes@.len() % 4 == 0,
    ensures
        r@ == be_u32s(bytes@),
{
    let mut ids: Vec<u32> = Vec::new();
    let mut i: usize = 0;
    while bytes.len() - i >= 4
        invariant
            i <= bytes@.len(),
            i % 4 == 0,
            bytes@.len() % 4 == 0,
            ids@.len() == i / 4,
            forall|k: int| 0 <= k < ids@.len() ==> #[trigger] ids@[k] == be_u32s(bytes@)[k],
        decreases bytes@.len() - i,
    {
        let v: u32 = (bytes[i] as u32) * 16777216 + (bytes[i + 1] as u32) * 65536 + (bytes[i + 2] as u32) * 256
            + (bytes[i + 3] as u32);
        ids.push(v);
        proof {
            let k = i / 4;
            assert(4 * k == i);
            assert(ids@[k as int] == be_u32s(bytes@)[k as int]);
        }
        i = i + 4;
    }
    assert(ids@ =~= be_u32s(bytes@));
    ids
}

} // verus!
