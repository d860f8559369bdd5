//! The parts of the Arylic TCP protocol (port 8899) that are computation:
//! building commands and reading the device's answers.
use crate::error::{msg, msg2, ControlPointError};
use crate::model::PlaybackState;
use crate::music_renderer::capabilities::PlaybackPositionInfo;
use crate::music_renderer::musicrenderer::{position_with_queue_item, spec_didl_lite_metadata};
use crate::queue::snapshot::PlaybackItem;
use crate::music_renderer::time_utils::{
    format_hhmmss, hhmmss, ms_to_seconds, parse_hhmmss_strict, spec_parse_hhmmss_strict, strict_fits,
};
use crate::text::{
    chars_eq_str, dec, parse_uint, push_dec, seq_starts_with, spec_parse_uint, starts_with_chars,
    str_chars, string_from_chars, trim_chars, trim_seq,
};
use vstd::prelude::*;

verus! {

/// `s` padded with zeros on the left to three characters.
pub open spec fn pad3(s: Seq<char>) -> Seq<char> {
    if s.len() < 3 {
        Seq::new((3 - s.len()) as nat, |i: int| '0') + s
    } else {
        s
    }
}

/// The volume command for a volume, capped at 100 and written on three
/// digits.
pub open spec fn spec_volume_command(value: u16) -> Seq<char> {
    let v: nat = if value > 100 { 100 } else { value as nat };
    "MCU+VOL+"@ + pad3(dec(v))
}

/// Builds the volume command (`MCU+VOL+` and the volume, at most 100, on
/// three digits).
pub fn format_volume_command(value: u16) -> (r: String)
    ensures
        r@ == spec_volume_command(value),
{
    let v: u64 = if value > 100 {
        100
    } else {
        value as u64
    };
    let mut out = str_chars("MCU+VOL+");
    if v < 10 {
        out.push('0');
        out.push('0');
    } else if v < 100 {
        out.push('0');
    }
    push_dec(&mut out, v);
    proof {
        reveal_strlit("MCU+VOL+");
        if v < 10 {
            assert(dec(v as nat).len() == 1);
        } else if v < 100 {
            assert(dec(v as nat) == dec((v / 10) as nat).push(crate::text::digit_char((v % 10) as nat)));
            assert(dec(v as nat).len() == 2);
        } else {
            assert(dec(100) == dec(10).push(crate::text::digit_char(0)));
            assert(dec(10) == dec(1).push(crate::text::digit_char(0)));
            assert(dec(v as nat).len() == 3);
        }
        assert(out@ =~= spec_volume_command(value));
    }
    string_from_chars(out.as_slice())
}

/// `s` without `prefix`, when it starts with it.
pub open spec fn strip(s: Seq<char>, prefix: Seq<char>) -> Option<Seq<char>> {
    if seq_starts_with(s, prefix) {
        Some(s.skip(prefix.len() as int))
    } else {
        None
    }
}

/// `s` without `prefix`, when it starts with it.
fn strip_prefix(s: &Vec<char>, prefix: &str) -> (r: Option<Vec<char>>)
    ensures
        match r {
            Some(v) => strip(s@, prefix@) == Some(v@),
            None => strip(s@, prefix@) is None,
        },
{
    let p = str_chars(prefix);
    if !starts_with_chars(s.as_slice(), p.as_slice()) {
        return None;
    }
    let mut out: Vec<char> = Vec::new();
    let mut i: usize = p.len();
    while i < s.len()
        invariant
            p@ == prefix@,
            p@.len() <= i <= s@.len(),
            out@ == s@.subrange(p@.len() as int, i as int),
        decreases s@.len() - i,
    {
        out.push(s[i]);
        i = i + 1;
        assert(out@ =~= s@.subrange(p@.len() as int, i as int));
    }
    assert(out@ =~= s@.skip(p@.len() as int));
    Some(out)
}

/// The volume reported by a `AXX+VOL+<n>` answer, capped at 100.
pub open spec fn spec_volume_payload(payload: Seq<char>) -> Result<u16, Seq<char>> {
    match strip(payload, "AXX+VOL+"@) {
        None => Err("Unexpected volume response: "@ + payload),
        Some(data) => match spec_parse_uint(trim_seq(data), u16::MAX as nat) {
            Some(v) => Ok(if v > 100 { 100u16 } else { v as u16 }),
            None => Err("Invalid volume value: "@ + data),
        },
    }
}

/// Reads the volume from a `AXX+VOL+<n>` answer, capped at 100.
pub fn parse_volume_payload(payload: &str) -> (r: Result<u16, ControlPointError>)
    ensures
        match spec_volume_payload(payload@) {
            Ok(v) => r == Ok::<u16, ControlPointError>(v),
            Err(m) => r matches Err(ControlPointError::ArilycTcpError(e)) && e@ == m,
        },
{
    let cs = str_chars(payload);
    let data = match strip_prefix(&cs, "AXX+VOL+") {
        Some(d) => d,
        None => {
            return Err(ControlPointError::ArilycTcpError(msg2("Unexpected volume response: ", payload)));
        },
    };
    let t = trim_chars(data.as_slice());
    match parse_uint(t.as_slice(), u16::MAX as u64) {
        Some(v) => Ok(if v > 100 {
            100
        } else {
            v as u16
        }),
        None => {
            let mut m = str_chars("Invalid volume value: ");
            let mut d = data;
            m.append(&mut d);
            Err(ControlPointError::ArilycTcpError(string_from_chars(m.as_slice())))
        },
    }
}

/// The mute state reported by a `AXX+MUT+<n>` answer.
pub open spec fn spec_mute_payload(payload: Seq<char>) -> Result<bool, Seq<char>> {
    match strip(payload, "AXX+MUT+"@) {
        None => Err("Unexpected mute response: "@ + payload),
        Some(data) => {
            let t = trim_seq(data);
            if t == "000"@ || t == "0"@ {
                Ok(false)
            } else if t == "001"@ || t == "1"@ {
                Ok(true)
            } else {
                Err("Invalid mute value: "@ + t)
            }
        },
    }
}

/// Reads the mute state from a `AXX+MUT+<n>` answer (`000`/`0` or
/// `001`/`1`).
pub fn parse_mute_payload(payload: &str) -> (r: Result<bool, ControlPointError>)
    ensures
        match spec_mute_payload(payload@) {
            Ok(v) => r == Ok::<bool, ControlPointError>(v),
            Err(m) => r matches Err(ControlPointError::ArilycTcpError(e)) && e@ == m,
        },
{
    let cs = str_chars(payload);
    let data = match strip_prefix(&cs, "AXX+MUT+") {
        Some(d) => d,
        None => {
            return Err(ControlPointError::ArilycTcpError(msg2("Unexpected mute response: ", payload)));
        },
    };
    let t = trim_chars(data.as_slice());
    if chars_eq_str(t.as_slice(), "000") || chars_eq_str(t.as_slice(), "0") {
        Ok(false)
    } else if chars_eq_str(t.as_slice(), "001") || chars_eq_str(t.as_slice(), "1") {
        Ok(true)
    } else {
        let mut m = str_chars("Invalid mute value: ");
        let mut tt = t;
        m.append(&mut tt);
        Err(ControlPointError::ArilycTcpError(string_from_chars(m.as_slice())))
    }
}

/// The fields of the JSON object of a `MCU+PINFGET` answer, as texts.
#[derive(Debug)]
pub struct ArylicPlaybackInfoRaw {
    pub status: String,
    pub curpos: String,
    pub totlen: String,
    pub vol: Option<String>,
    pub mute: Option<String>,
    pub plicount: Option<String>,
    pub plicurr: Option<String>,
}

/// Playback information of an Arylic device.
#[derive(Debug)]
pub struct ArylicPlaybackInfo {
    pub status_raw: String,
    pub curpos_ms: u64,
    pub totlen_ms: u64,
    pub volume: Option<u16>,
    pub mute: Option<bool>,
    pub playlist_size: Option<u32>,
    pub track_index: Option<u32>,
}

/// The transport state named by a status text.
pub open spec fn spec_status_state(status: Seq<char>) -> PlaybackState {
    if status == "play"@ {
        PlaybackState::Playing
    } else if status == "pause"@ {
        PlaybackState::Paused
    } else if status == "stop"@ {
        PlaybackState::Stopped
    } else {
        PlaybackState::Unknown(arbitrary())
    }
}

/// The track number shown: the index, capped by the playlist size when known.
pub open spec fn spec_track(idx: Option<u32>, count: Option<u32>) -> Option<u32> {
    match (idx, count) {
        (Some(i), Some(c)) if c > 0 => Some(if i < c { i } else { c }),
        (Some(i), _) => Some(i),
        _ => None,
    }
}

impl ArylicPlaybackInfo {
    /// The transport state: `play`, `pause` and `stop`, anything else kept as
    /// an unknown state.
    pub fn playback_state(&self) -> (r: PlaybackState)
        ensures
            match r {
                PlaybackState::Unknown(s) => s@ == self.status_raw@ && spec_status_state(self.status_raw@) is Unknown,
                _ => r == spec_status_state(self.status_raw@),
            },
    {
        let s = str_chars(self.status_raw.as_str());
        if chars_eq_str(s.as_slice(), "play") {
            PlaybackState::Playing
        } else if chars_eq_str(s.as_slice(), "pause") {
            PlaybackState::Paused
        } else if chars_eq_str(s.as_slice(), "stop") {
            PlaybackState::Stopped
        } else {
            PlaybackState::Unknown(self.status_raw.clone())
        }
    }

    /// The position: track number, current time and duration (absent when
    /// zero) as `HH:MM:SS`.
    pub fn position_info(&self) -> (r: PlaybackPositionInfo)
        ensures
            r.track == spec_track(self.track_index, self.playlist_size),
            r.rel_time matches Some(t) && t@ == hhmmss((self.curpos_ms / 1000) as nat),
            self.totlen_ms > 0 ==> (r.track_duration matches Some(t) && t@ == hhmmss((self.totlen_ms / 1000) as nat)),
            self.totlen_ms == 0 ==> r.track_duration is None,
            r.abs_time is None,
            r.track_metadata is None,
            r.track_uri is None,
    {
        let track = match (self.track_index, self.playlist_size) {
            (Some(idx), Some(count)) => {
                if count > 0 {
                    Some(if idx < count {
                        idx
                    } else {
                        count
                    })
                } else {
                    Some(idx)
                }
            },
            (Some(idx), None) => Some(idx),
            _ => None,
        };
        PlaybackPositionInfo {
            track,
            rel_time: Some(format_hhmmss(ms_to_seconds(self.curpos_ms))),
            abs_time: None,
            track_duration: if self.totlen_ms > 0 {
                Some(format_hhmmss(ms_to_seconds(self.totlen_ms)))
            } else {
                None
            },
            track_metadata: None,
            track_uri: None,
        }
    }
}

/// Position of the first `c` in `s`.
pub open spec fn first_char(s: Seq<char>, c: char, i: int) -> Option<int>
    decreases s.len() - i,
{
    if i < 0 || i >= s.len() {
        None
    } else if s[i] == c {
        Some(i)
    } else {
        first_char(s, c, i + 1)
    }
}

/// Position of the last `c` in `s`.
pub open spec fn last_char(s: Seq<char>, c: char) -> Option<int>
    decreases s.len(),
{
    if s.len() == 0 {
        None
    } else if s.last() == c {
        Some(s.len() - 1)
    } else {
        last_char(s.drop_last(), c)
    }
}

/// What follows the `AXX+PLY+INF` prefix of an answer.
pub open spec fn info_blob(payload: Seq<char>) -> Seq<char> {
    payload.skip(11)
}

/// The JSON object of a playback information answer: from the first `{` to
/// the last `}` after the `AXX+PLY+INF` prefix.
pub open spec fn spec_info_json(payload: Seq<char>) -> Result<Seq<char>, Seq<char>> {
    if !seq_starts_with(payload, "AXX+PLY+INF"@) {
        Err("Unexpected playback info prefix: "@ + payload)
    } else {
        let blob = info_blob(payload);
        match first_char(blob, '{', 0) {
            None => Err("No JSON object found in playback info: "@ + payload),
            Some(s) => match last_char(blob, '}') {
                None => Err("No JSON object end found in playback info: "@ + payload),
                Some(e) => Ok(blob.subrange(s, e + 1)),
            },
        }
    }
}

/// The first `{` of the answer comes at most one place after its last `}`
/// (slicing from one to the other fails otherwise).
pub open spec fn braces_in_order(payload: Seq<char>) -> bool {
    seq_starts_with(payload, "AXX+PLY+INF"@) ==> match (first_char(info_blob(payload), '{', 0), last_char(info_blob(payload), '}')) {
        (Some(s), Some(e)) => s <= e + 1,
        _ => true,
    }
}

proof fn lemma_first_char(s: Seq<char>, c: char, i: int)
    requires
        0 <= i,
    ensures
        first_char(s, c, i) matches Some(k) ==> i <= k < s.len() && s[k] == c,
    decreases s.len() - i,
{
    if i < s.len() && s[i] != c {
        lemma_first_char(s, c, i + 1);
    }
}

proof fn lemma_last_char(s: Seq<char>, c: char)
    ensures
        last_char(s, c) matches Some(k) ==> 0 <= k < s.len() && s[k] == c,
    decreases s.len(),
{
    if s.len() > 0 && s.last() != c {
        lemma_last_char(s.drop_last(), c);
    }
}

/// Extracts the JSON object of a `AXX+PLY+INF{...}` answer, ignoring what
/// surrounds it.
pub fn playback_info_json(payload: &str) -> (r: Result<String, ControlPointError>)
    requires
        braces_in_order(payload@),
    ensures
        match spec_info_json(payload@) {
            Ok(j) => r matches Ok(s) && s@ == j,
            Err(m) => r matches Err(ControlPointError::ArilycTcpError(e)) && e@ == m,
        },
{
    let cs = str_chars(payload);
    let blob = match strip_prefix(&cs, "AXX+PLY+INF") {
        Some(b) => b,
        None => {
            return Err(ControlPointError::ArilycTcpError(msg2("Unexpected playback info prefix: ", payload)));
        },
    };
    proof {
        reveal_strlit("AXX+PLY+INF");
        assert(blob@ == info_blob(payload@));
    }
    let mut start: usize = 0;
    while start < blob.len() && blob[start] != '{'
        invariant
            start <= blob@.len(),
            first_char(blob@, '{', 0) == first_char(blob@, '{', start as int),
        decreases blob@.len() - start,
    {
        start = start + 1;
    }
    if start == blob.len() {
        return Err(ControlPointError::ArilycTcpError(msg2("No JSON object found in playback info: ", payload)));
    }
    let mut end: usize = blob.len();
    proof {
        assert(blob@.take(blob@.len() as int) =~= blob@);
    }
    while end > 0 && blob[end - 1] != '}'
        invariant
            end <= blob@.len(),
            last_char(blob@, '}') == last_char(blob@.take(end as int), '}'),
        decreases end,
    {
        proof {
            assert(blob@.take(end as int).drop_last() =~= blob@.take(end - 1));
        }
        end = end - 1;
    }
    proof {
        assert(blob@.take(blob@.len() as int) =~= blob@);
    }
    if end == 0 {
        proof {
            assert(blob@.take(0) =~= Seq::<char>::empty());
        }
        return Err(ControlPointError::ArilycTcpError(msg2("No JSON object end found in playback info: ", payload)));
    }
    proof {
        assert(blob@.take(end as int).drop_last() =~= blob@.take(end - 1));
        assert(last_char(blob@, '}') == Some(end - 1));
    }
    let mut out: Vec<char> = Vec::new();
    let mut i: usize = start;
    while i < end
        invariant
            start <= i <= end <= blob@.len(),
            out@ == blob@.subrange(start as int, i as int),
        decreases end - i,
    {
        out.push(blob[i]);
        i = i + 1;
        assert(out@ =~= blob@.subrange(start as int, i as int));
    }
    Ok(string_from_chars(out.as_slice()))
}

/// A number of the answer read as an unsigned integer with maximum `max`.
pub open spec fn opt_number(v: Option<String>, max: nat) -> Option<nat> {
    match v {
        Some(s) => spec_parse_uint(s@, max),
        None => None,
    }
}

/// The playback information read from the fields of the JSON object.
pub open spec fn spec_info_from_raw(raw: ArylicPlaybackInfoRaw) -> Result<(u64, u64, Option<u16>, Option<bool>, Option<u32>, Option<u32>), Seq<char>> {
    match spec_parse_uint(raw.curpos@, u64::MAX as nat) {
        None => Err("Invalid curpos value: "@ + raw.curpos@),
        Some(curpos) => match spec_parse_uint(raw.totlen@, u64::MAX as nat) {
            None => Err("Invalid totlen value: "@ + raw.totlen@),
            Some(totlen) => {
                let volume = match opt_number(raw.vol, u16::MAX as nat) {
                    Some(v) => Some(if v > 100 { 100u16 } else { v as u16 }),
                    None => None,
                };
                let mute = match raw.mute {
                    Some(m) => if m@ == "1"@ {
                        Some(true)
                    } else if m@ == "0"@ {
                        Some(false)
                    } else {
                        None
                    },
                    None => None,
                };
                let size = match opt_number(raw.plicount, u32::MAX as nat) {
                    Some(c) => if c > 0 {
                        Some(c as u32)
                    } else {
                        None
                    },
                    None => None,
                };
                let index = match opt_number(raw.plicurr, u32::MAX as nat) {
                    Some(c) => if c > 0 {
                        Some(c as u32)
                    } else {
                        None
                    },
                    None => None,
                };
                Ok((curpos as u64, totlen as u64, volume, mute, size, index))
            },
        },
    }
}

/// An optional number of the answer.
fn optional_number(v: &Option<String>, max: u64) -> (r: Option<u64>)
    ensures
        match r {
            Some(x) => opt_number(*v, max as nat) == Some(x as nat),
            None => opt_number(*v, max as nat) is None,
        },
{
    match v {
        Some(s) => {
            let cs = str_chars(s.as_str());
            parse_uint(cs.as_slice(), max)
        },
        None => None,
    }
}

/// `r` is the playback information that the fields of `raw` give.
pub open spec fn read_from_raw(raw: ArylicPlaybackInfoRaw, r: Result<ArylicPlaybackInfo, ControlPointError>) -> bool {
    match spec_info_from_raw(raw) {
        Ok((c, t, v, m, s, i)) => r matches Ok(info) && info.status_raw == raw.status && info.curpos_ms == c
            && info.totlen_ms == t && info.volume == v && info.mute == m && info.playlist_size == s
            && info.track_index == i,
        Err(e) => r matches Err(ControlPointError::ArilycTcpError(x)) && x@ == e,
    }
}

/// Reads the playback information from the fields of the JSON object:
/// positions in milliseconds, volume capped at 100, mute as `1`/`0`, and
/// playlist size and index only when positive; unreadable optional fields
/// are left out.
pub fn playback_info_from_raw(raw: ArylicPlaybackInfoRaw) -> (r: Result<ArylicPlaybackInfo, ControlPointError>)
    ensures
        read_from_raw(raw, r),
{
    let curpos_ms = match parse_uint(str_chars(raw.curpos.as_str()).as_slice(), u64::MAX) {
        Some(v) => v,
        None => {
            return Err(ControlPointError::ArilycTcpError(msg2("Invalid curpos value: ", raw.curpos.as_str())));
        },
    };
    let totlen_ms = match parse_uint(str_chars(raw.totlen.as_str()).as_slice(), u64::MAX) {
        Some(v) => v,
        None => {
            return Err(ControlPointError::ArilycTcpError(msg2("Invalid totlen value: ", raw.totlen.as_str())));
        },
    };
    let volume = match optional_number(&raw.vol, u16::MAX as u64) {
        Some(v) => Some(if v > 100 {
            100u16
        } else {
            v as u16
        }),
        None => None,
    };
    let mute = match &raw.mute {
        Some(m) => {
            let cs = str_chars(m.as_str());
            if chars_eq_str(cs.as_slice(), "1") {
                Some(true)
            } else if chars_eq_str(cs.as_slice(), "0") {
                Some(false)
            } else {
                None
            }
        },
        None => None,
    };
    let playlist_size = match optional_number(&raw.plicount, u32::MAX as u64) {
        Some(c) => if c > 0 {
            Some(c as u32)
        } else {
            None
        },
        None => None,
    };
    let track_index = match optional_number(&raw.plicurr, u32::MAX as u64) {
        Some(c) => if c > 0 {
            Some(c as u32)
        } else {
            None
        },
        None => None,
    };
    Ok(ArylicPlaybackInfo { status_raw: raw.status, curpos_ms, totlen_ms, volume, mute, playlist_size, track_index })
}

/// `out` is what `decode` gave for the JSON text `json`.
pub open spec fn decoded<D: Fn(String) -> Result<ArylicPlaybackInfoRaw, String>>(
    decode: D,
    json: Seq<char>,
    out: Result<ArylicPlaybackInfoRaw, String>,
) -> bool {
    exists|s: String| s@ == json && #[trigger] decode.ensures((s,), out)
}

/// `r` is what reading the playback information answer `payload` gives,
/// its JSON object read by `decode`.
pub open spec fn parsed_info<D: Fn(String) -> Result<ArylicPlaybackInfoRaw, String>>(
    decode: D,
    payload: Seq<char>,
    r: Result<ArylicPlaybackInfo, ControlPointError>,
) -> bool {
    match spec_info_json(payload) {
        Err(m) => r matches Err(ControlPointError::ArilycTcpError(e)) && e@ == m,
        Ok(j) => exists|out: Result<ArylicPlaybackInfoRaw, String>|
            #[trigger] decoded(decode, j, out) && match out {
                Err(e) => r matches Err(ControlPointError::ArilycTcpError(x))
                    && x@ == "Failed to parse Arylic playback info JSON: "@ + e@,
                Ok(raw) => read_from_raw(raw, r),
            },
    }
}

/// Parses a `AXX+PLY+INF{...}` answer: the JSON object is cut out of the
/// answer, handed to `decode` (which reads its fields, or says why it
/// cannot), and its fields are then read as numbers and flags.
pub fn parse_playback_info<D: Fn(String) -> Result<ArylicPlaybackInfoRaw, String>>(
    payload: &str,
    decode: &D,
) -> (r: Result<ArylicPlaybackInfo, ControlPointError>)
    requires
        braces_in_order(payload@),
        forall|s: String| #[trigger] decode.requires((s,)),
    ensures
        parsed_info(*decode, payload@, r),
{
    let json = match playback_info_json(payload) {
        Ok(j) => j,
        Err(e) => {
            return Err(e);
        },
    };
    let ghost jv = json@;
    let out = decode(json);
    proof {
        assert(decoded(*decode, jv, out));
    }
    match out {
        Err(e) => Err(ControlPointError::ArilycTcpError(msg2("Failed to parse Arylic playback info JSON: ", e.as_str()))),
        Ok(raw) => playback_info_from_raw(raw),
    }
}

/// The command that mutes (`MCU+MUT+001`) or unmutes (`MCU+MUT+000`).
pub open spec fn spec_mute_command(m: bool) -> Seq<char> {
    if m {
        "MCU+MUT+001"@
    } else {
        "MCU+MUT+000"@
    }
}

/// Whether the first `{` of a playback information answer comes at most
/// one place after its last `}` (see [`braces_in_order`]).
pub fn has_braces_in_order(payload: &str) -> (r: bool)
    ensures
        r == braces_in_order(payload@),
{
    let cs = str_chars(payload);
    let blob = match strip_prefix(&cs, "AXX+PLY+INF") {
        Some(b) => b,
        None => {
            return true;
        },
    };
    proof {
        reveal_strlit("AXX+PLY+INF");
        assert(blob@ == info_blob(payload@));
    }
    let mut start: usize = 0;
    while start < blob.len() && blob[start] != '{'
        invariant
            start <= blob@.len(),
            first_char(blob@, '{', 0) == first_char(blob@, '{', start as int),
        decreases blob@.len() - start,
    {
        start = start + 1;
    }
    if start == blob.len() {
        return true;
    }
    let mut end: usize = blob.len();
    proof {
        assert(blob@.take(blob@.len() as int) =~= blob@);
    }
    while end > 0 && blob[end - 1] != '}'
        invariant
            end <= blob@.len(),
            last_char(blob@, '}') == last_char(blob@.take(end as int), '}'),
        decreases end,
    {
        proof {
            assert(blob@.take(end as int).drop_last() =~= blob@.take(end - 1));
        }
        end = end - 1;
    }
    if end == 0 {
        proof {
            assert(blob@.take(0) =~= Seq::<char>::empty());
        }
        return true;
    }
    proof {
        assert(blob@.take(end as int).drop_last() =~= blob@.take(end - 1));
    }
    start <= end
}

/// The TCP control port of Arylic devices.
pub const ARYLIC_TCP_PORT: u16 = 8899;

/// How a command expects the device to answer.
#[derive(Clone, Copy, Debug, PartialEq, Eq, Structural)]
pub enum ArylicReply {
    /// An answer starting with one of the expected prefixes is awaited.
    Required,
    /// An answer may come.
    Optional,
    /// No answer is awaited.
    NoResponse,
}

/// One command for a device's TCP control port: where it goes, the command
/// line, the answer prefixes it accepts, and how an answer is awaited.
#[derive(Debug)]
pub struct ArylicCommand {
    pub host: String,
    pub port: u16,
    pub timeout_secs: u64,
    pub line: String,
    pub expected: Vec<String>,
    pub reply: ArylicReply,
}

/// The texts of a sequence of strings.
pub open spec fn texts(v: Seq<String>) -> Seq<Seq<char>> {
    Seq::new(v.len(), |i: int| v[i]@)
}

/// `send` performs any exchange, and answers a command that requires an
/// answer with that answer when it succeeds.
pub open spec fn send_total<S: Fn(ArylicCommand) -> Result<Option<String>, ControlPointError>>(send: S) -> bool {
    &&& forall|c: ArylicCommand| #[trigger] send.requires((c,))
    &&& forall|c: ArylicCommand, a: Result<Option<String>, ControlPointError>|
        #[trigger] send.ensures((c,), a) && c.reply == ArylicReply::Required && a is Ok ==> a->Ok_0 is Some
}

/// `send` was handed the command `line` for `host:port` (with the given
/// timeout, accepted answer prefixes and answer mode) and answered `a`.
pub open spec fn exchanged<S: Fn(ArylicCommand) -> Result<Option<String>, ControlPointError>>(
    send: S,
    host: Seq<char>,
    port: u16,
    timeout_secs: u64,
    line: Seq<char>,
    expected: Seq<Seq<char>>,
    reply: ArylicReply,
    a: Result<Option<String>, ControlPointError>,
) -> bool {
    exists|c: ArylicCommand|
        #[trigger] send.ensures((c,), a) && c.host@ == host && c.port == port && c.timeout_secs == timeout_secs
            && c.line@ == line && texts(c.expected@) == expected && c.reply == reply
}

/// An answer with its content dropped.
pub open spec fn unit_of(a: Result<Option<String>, ControlPointError>) -> Result<(), ControlPointError> {
    match a {
        Ok(_) => Ok(()),
        Err(e) => Err(e),
    }
}

/// A renderer driven over the Arylic TCP control protocol. The exchanges
/// themselves are made by the `send` function handed to each operation.
#[derive(Debug)]
pub struct ArylicTcpRenderer {
    host: String,
    port: u16,
    timeout_secs: u64,
}

/// `r` is the playback information read by the `MCU+PINFGET` exchange of
/// `send` with the device, its JSON object read by `decode`. An answer
/// whose braces are out of order is refused.
pub open spec fn fetched_info<
    S: Fn(ArylicCommand) -> Result<Option<String>, ControlPointError>,
    D: Fn(String) -> Result<ArylicPlaybackInfoRaw, String>,
>(
    send: S,
    decode: D,
    host: Seq<char>,
    port: u16,
    timeout_secs: u64,
    r: Result<ArylicPlaybackInfo, ControlPointError>,
) -> bool {
    exists|a: Result<Option<String>, ControlPointError>|
        #[trigger] exchanged(send, host, port, timeout_secs, "MCU+PINFGET"@, seq!["AXX+PLY+INF"@], ArylicReply::Required, a)
            && match a {
            Err(e) => r == Err::<ArylicPlaybackInfo, ControlPointError>(e),
            Ok(None) => false,
            Ok(Some(p)) => if braces_in_order(p@) {
                parsed_info(decode, p@, r)
            } else {
                r matches Err(ControlPointError::ArilycTcpError(m)) && m@ == "Malformed playback info: "@ + p@
            },
        }
}

/// `r` is what a device reports of a setting: the value found in its
/// playback information `first` when there is one, otherwise the answer to
/// the exchange `line` (accepting answers that start with `prefix`), read by
/// `read`.
pub open spec fn setting_read<S: Fn(ArylicCommand) -> Result<Option<String>, ControlPointError>, T>(
    send: S,
    host: Seq<char>,
    port: u16,
    timeout_secs: u64,
    found: Option<T>,
    line: Seq<char>,
    prefix: Seq<char>,
    read: spec_fn(Seq<char>) -> Result<T, Seq<char>>,
    r: Result<T, ControlPointError>,
) -> bool {
    match found {
        Some(v) => r == Ok::<T, ControlPointError>(v),
        None => exists|a: Result<Option<String>, ControlPointError>|
            #[trigger] exchanged(send, host, port, timeout_secs, line, seq![prefix], ArylicReply::Required, a) && match a {
                Err(e) => r == Err::<T, ControlPointError>(e),
                Ok(None) => false,
                Ok(Some(p)) => match read(p@) {
                    Ok(v) => r == Ok::<T, ControlPointError>(v),
                    Err(m) => r matches Err(ControlPointError::ArilycTcpError(e)) && e@ == m,
                },
            },
    }
}

impl ArylicTcpRenderer {
    /// The device's host.
    pub closed spec fn host_view(&self) -> Seq<char> {
        self.host@
    }

    /// The device's control port.
    pub closed spec fn port_view(&self) -> u16 {
        self.port
    }

    /// The time allowed to each exchange, in seconds.
    pub closed spec fn timeout_view(&self) -> u64 {
        self.timeout_secs
    }

    /// A renderer for the device at `host:port`, each exchange allowed
    /// `timeout_secs` seconds.
    pub fn new(host: String, port: u16, timeout_secs: u64) -> (r: Self)
        ensures
            r.host_view() == host@,
            r.port_view() == port,
            r.timeout_view() == timeout_secs,
    {
        ArylicTcpRenderer { host, port, timeout_secs }
    }

    /// The device's host.
    pub fn host(&self) -> (r: &str)
        ensures
            r@ == self.host_view(),
    {
        self.host.as_str()
    }

    /// Hands the command `line` to `send`, accepting answers that start
    /// with `expected` when given.
    fn exchange<S: Fn(ArylicCommand) -> Result<Option<String>, ControlPointError>>(
        &self,
        send: &S,
        line: &str,
        expected: Option<&str>,
        reply: ArylicReply,
    ) -> (r: Result<Option<String>, ControlPointError>)
        requires
            send_total(*send),
        ensures
            exchanged(
                *send,
                self.host_view(),
                self.port_view(),
                self.timeout_view(),
                line@,
                match expected {
                    Some(p) => seq![p@],
                    None => seq![],
                },
                reply,
                r,
            ),
            reply == ArylicReply::Required && r is Ok ==> r->Ok_0 is Some,
    {
        let mut ex: Vec<String> = Vec::new();
        match expected {
            Some(p) => ex.push(crate::text::str_to_string(p)),
            None => {},
        }
        let c = ArylicCommand {
            host: self.host.clone(),
            port: self.port,
            timeout_secs: self.timeout_secs,
            line: crate::text::str_to_string(line),
            expected: ex,
            reply,
        };
        let ghost cv = c;
        proof {
            assert(texts(cv.expected@) =~= match expected {
                Some(p) => seq![p@],
                None => seq![],
            });
        }
        let r = send(c);
        assert(send.ensures((cv,), r));
        r
    }

    /// Loading a URL is not part of the protocol: always refused.
    pub fn play_uri(&self, uri: &str, meta: &str) -> (r: Result<(), ControlPointError>)
        ensures
            r matches Err(ControlPointError::UpnpOperationNotSupported(o, s))
                && o@ == "Arylic TCP backend does not support direct URL loading."@ && s@ == "ArylicTcpRenderer"@,
    {
        Err(ControlPointError::upnp_operation_not_supported(
            "Arylic TCP backend does not support direct URL loading.",
            "ArylicTcpRenderer",
        ))
    }

    /// Starts or resumes playback (`MCU+PLY-PLA`, no answer awaited).
    pub fn play<S: Fn(ArylicCommand) -> Result<Option<String>, ControlPointError>>(&self, send: &S) -> (r: Result<
        (),
        ControlPointError,
    >)
        requires
            send_total(*send),
        ensures
            exists|a: Result<Option<String>, ControlPointError>|
                #[trigger] exchanged(
                    *send,
                    self.host_view(),
                    self.port_view(),
                    self.timeout_view(),
                    "MCU+PLY-PLA"@,
                    seq![],
                    ArylicReply::NoResponse,
                    a,
                ) && r == unit_of(a),
    {
        let a = self.exchange(send, "MCU+PLY-PLA", None, ArylicReply::NoResponse);
        match a {
            Ok(_) => Ok(()),
            Err(e) => Err(e),
        }
    }

    /// Pauses playback (`MCU+PLY-PUS`, an `AXX+PLY+` answer may come).
    pub fn pause<S: Fn(ArylicCommand) -> Result<Option<String>, ControlPointError>>(&self, send: &S) -> (r: Result<
        (),
        ControlPointError,
    >)
        requires
            send_total(*send),
        ensures
            exists|a: Result<Option<String>, ControlPointError>|
                #[trigger] exchanged(
                    *send,
                    self.host_view(),
                    self.port_view(),
                    self.timeout_view(),
                    "MCU+PLY-PUS"@,
                    seq!["AXX+PLY+"@],
                    ArylicReply::Optional,
                    a,
                ) && r == unit_of(a),
    {
        let a = self.exchange(send, "MCU+PLY-PUS", Some("AXX+PLY+"), ArylicReply::Optional);
        match a {
            Ok(_) => Ok(()),
            Err(e) => Err(e),
        }
    }

    /// Stops playback (`MCU+PLY-STP`, no answer awaited).
    pub fn stop<S: Fn(ArylicCommand) -> Result<Option<String>, ControlPointError>>(&self, send: &S) -> (r: Result<
        (),
        ControlPointError,
    >)
        requires
            send_total(*send),
        ensures
            exists|a: Result<Option<String>, ControlPointError>|
                #[trigger] exchanged(
                    *send,
                    self.host_view(),
                    self.port_view(),
                    self.timeout_view(),
                    "MCU+PLY-STP"@,
                    seq![],
                    ArylicReply::NoResponse,
                    a,
                ) && r == unit_of(a),
    {
        let a = self.exchange(send, "MCU+PLY-STP", None, ArylicReply::NoResponse);
        match a {
            Ok(_) => Ok(()),
            Err(e) => Err(e),
        }
    }

    /// Seeking is not offered by the protocol: a malformed position is
    /// refused as such, any other is refused as not implemented. Nothing is
    /// sent.
    pub fn seek_rel_time(&self, hhmmss: &str) -> (r: Result<(), ControlPointError>)
        requires
            strict_fits(hhmmss@),
        ensures
            match spec_parse_hhmmss_strict(hhmmss@) {
                Some(_) => r matches Err(ControlPointError::ArilycTcpError(m))
                    && m@ == "Arylic TCP seek_rel_time is not implemented yet for this device."@,
                None => r matches Err(ControlPointError::InvalidTimeFormat(_)),
            },
    {
        match parse_hhmmss_strict(hhmmss) {
            Ok(_) => Err(ControlPointError::ArilycTcpError(msg("Arylic TCP seek_rel_time is not implemented yet for this device."))),
            Err(e) => Err(e),
        }
    }

    /// Reads the playback information (`MCU+PINFGET`, answered by
    /// `AXX+PLY+INF{...}`), its JSON object read by `decode`.
    pub fn fetch_playback_info<
        S: Fn(ArylicCommand) -> Result<Option<String>, ControlPointError>,
        D: Fn(String) -> Result<ArylicPlaybackInfoRaw, String>,
    >(&self, send: &S, decode: &D) -> (r: Result<ArylicPlaybackInfo, ControlPointError>)
        requires
            send_total(*send),
            forall|s: String| #[trigger] decode.requires((s,)),
        ensures
            fetched_info(*send, *decode, self.host_view(), self.port_view(), self.timeout_view(), r),
    {
        let a = self.exchange(send, "MCU+PINFGET", Some("AXX+PLY+INF"), ArylicReply::Required);
        let ghost av = a;
        let r = match a {
            Err(e) => Err(e),
            Ok(None) => Err(ControlPointError::ArilycTcpError(msg("No playback info answer"))),
            Ok(Some(p)) => {
                if has_braces_in_order(p.as_str()) {
                    parse_playback_info(p.as_str(), decode)
                } else {
                    Err(ControlPointError::ArilycTcpError(msg2("Malformed playback info: ", p.as_str())))
                }
            },
        };
        assert(exchanged(
            *send,
            self.host_view(),
            self.port_view(),
            self.timeout_view(),
            "MCU+PINFGET"@,
            seq!["AXX+PLY+INF"@],
            ArylicReply::Required,
            av,
        ));
        r
    }

    /// The volume: the one the playback information reports, else the answer
    /// to `MCU+VOL+GET` (an `AXX+VOL+<n>` line).
    pub fn volume<
        S: Fn(ArylicCommand) -> Result<Option<String>, ControlPointError>,
        D: Fn(String) -> Result<ArylicPlaybackInfoRaw, String>,
    >(&self, send: &S, decode: &D) -> (r: Result<u16, ControlPointError>)
        requires
            send_total(*send),
            forall|s: String| #[trigger] decode.requires((s,)),
        ensures
            exists|first: Result<ArylicPlaybackInfo, ControlPointError>|
                #[trigger] fetched_info(*send, *decode, self.host_view(), self.port_view(), self.timeout_view(), first)
                    && setting_read(
                    *send,
                    self.host_view(),
                    self.port_view(),
                    self.timeout_view(),
                    match first {
                        Ok(info) => info.volume,
                        Err(_) => None,
                    },
                    "MCU+VOL+GET"@,
                    "AXX+VOL+"@,
                    |p: Seq<char>| spec_volume_payload(p),
                    r,
                ),
    {
        let first = self.fetch_playback_info(send, decode);
        let ghost fv = first;
        let found = match first {
            Ok(info) => info.volume,
            Err(_) => None,
        };
        let r = match found {
            Some(v) => Ok(v),
            None => {
                let a = self.exchange(send, "MCU+VOL+GET", Some("AXX+VOL+"), ArylicReply::Required);
                let ghost av = a;
                let r = match a {
                    Err(e) => Err(e),
                    Ok(None) => Err(ControlPointError::ArilycTcpError(msg("No volume answer"))),
                    Ok(Some(p)) => parse_volume_payload(p.as_str()),
                };
                assert(exchanged(
                    *send,
                    self.host_view(),
                    self.port_view(),
                    self.timeout_view(),
                    "MCU+VOL+GET"@,
                    seq!["AXX+VOL+"@],
                    ArylicReply::Required,
                    av,
                ));
                r
            },
        };
        assert(fetched_info(*send, *decode, self.host_view(), self.port_view(), self.timeout_view(), fv));
        r
    }

    /// Sets the volume (`MCU+VOL+<n>`, at most 100 on three digits; an
    /// `AXX+VOL+` answer may come).
    pub fn set_volume<S: Fn(ArylicCommand) -> Result<Option<String>, ControlPointError>>(&self, send: &S, v: u16) -> (r:
        Result<(), ControlPointError>)
        requires
            send_total(*send),
        ensures
            exists|a: Result<Option<String>, ControlPointError>|
                #[trigger] exchanged(
                    *send,
                    self.host_view(),
                    self.port_view(),
                    self.timeout_view(),
                    spec_volume_command(v),
                    seq!["AXX+VOL+"@],
                    ArylicReply::Optional,
                    a,
                ) && r == unit_of(a),
    {
        let command = format_volume_command(v);
        let a = self.exchange(send, command.as_str(), Some("AXX+VOL+"), ArylicReply::Optional);
        match a {
            Ok(_) => Ok(()),
            Err(e) => Err(e),
        }
    }

    /// The mute state: the one the playback information reports, else the
    /// answer to `MCU+MUT+GET` (an `AXX+MUT+<n>` line).
    pub fn mute<
        S: Fn(ArylicCommand) -> Result<Option<String>, ControlPointError>,
        D: Fn(String) -> Result<ArylicPlaybackInfoRaw, String>,
    >(&self, send: &S, decode: &D) -> (r: Result<bool, ControlPointError>)
        requires
            send_total(*send),
            forall|s: String| #[trigger] decode.requires((s,)),
        ensures
            exists|first: Result<ArylicPlaybackInfo, ControlPointError>|
                #[trigger] fetched_info(*send, *decode, self.host_view(), self.port_view(), self.timeout_view(), first)
                    && setting_read(
                    *send,
                    self.host_view(),
                    self.port_view(),
                    self.timeout_view(),
                    match first {
                        Ok(info) => info.mute,
                        Err(_) => None,
                    },
                    "MCU+MUT+GET"@,
                    "AXX+MUT+"@,
                    |p: Seq<char>| spec_mute_payload(p),
                    r,
                ),
    {
        let first = self.fetch_playback_info(send, decode);
        let ghost fv = first;
        let found = match first {
            Ok(info) => info.mute,
            Err(_) => None,
        };
        let r = match found {
            Some(m) => Ok(m),
            None => {
                let a = self.exchange(send, "MCU+MUT+GET", Some("AXX+MUT+"), ArylicReply::Required);
                let ghost av = a;
                let r = match a {
                    Err(e) => Err(e),
                    Ok(None) => Err(ControlPointError::ArilycTcpError(msg("No mute answer"))),
                    Ok(Some(p)) => parse_mute_payload(p.as_str()),
                };
                assert(exchanged(
                    *send,
                    self.host_view(),
                    self.port_view(),
                    self.timeout_view(),
                    "MCU+MUT+GET"@,
                    seq!["AXX+MUT+"@],
                    ArylicReply::Required,
                    av,
                ));
                r
            },
        };
        assert(fetched_info(*send, *decode, self.host_view(), self.port_view(), self.timeout_view(), fv));
        r
    }

    /// Mutes or unmutes (`MCU+MUT+001` or `MCU+MUT+000`); the `AXX+MUT+<n>`
    /// answer must be readable.
    pub fn set_mute<S: Fn(ArylicCommand) -> Result<Option<String>, ControlPointError>>(&self, send: &S, m: bool) -> (r:
        Result<(), ControlPointError>)
        requires
            send_total(*send),
        ensures
            exists|a: Result<Option<String>, ControlPointError>|
                #[trigger] exchanged(
                    *send,
                    self.host_view(),
                    self.port_view(),
                    self.timeout_view(),
                    spec_mute_command(m),
                    seq!["AXX+MUT+"@],
                    ArylicReply::Required,
                    a,
                ) && match a {
                    Err(e) => r == Err::<(), ControlPointError>(e),
                    Ok(None) => false,
                    Ok(Some(p)) => match spec_mute_payload(p@) {
                        Ok(_) => r is Ok,
                        Err(x) => r matches Err(ControlPointError::ArilycTcpError(e)) && e@ == x,
                    },
                },
    {
        let command = if m {
            "MCU+MUT+001"
        } else {
            "MCU+MUT+000"
        };
        let a = self.exchange(send, command, Some("AXX+MUT+"), ArylicReply::Required);
        let ghost av = a;
        let r = match a {
            Err(e) => Err(e),
            Ok(None) => Err(ControlPointError::ArilycTcpError(msg("No mute answer"))),
            Ok(Some(p)) => match parse_mute_payload(p.as_str()) {
                Ok(_) => Ok(()),
                Err(e) => Err(e),
            },
        };
        assert(exchanged(
            *send,
            self.host_view(),
            self.port_view(),
            self.timeout_view(),
            spec_mute_command(m),
            seq!["AXX+MUT+"@],
            ArylicReply::Required,
            av,
        ));
        r
    }

    /// The transport state, from the playback information.
    pub fn playback_state<
        S: Fn(ArylicCommand) -> Result<Option<String>, ControlPointError>,
        D: Fn(String) -> Result<ArylicPlaybackInfoRaw, String>,
    >(&self, send: &S, decode: &D) -> (r: Result<PlaybackState, ControlPointError>)
        requires
            send_total(*send),
            forall|s: String| #[trigger] decode.requires((s,)),
        ensures
            exists|first: Result<ArylicPlaybackInfo, ControlPointError>|
                #[trigger] fetched_info(*send, *decode, self.host_view(), self.port_view(), self.timeout_view(), first)
                    && match first {
                    Err(e) => r == Err::<PlaybackState, ControlPointError>(e),
                    Ok(info) => r matches Ok(st) && match st {
                        PlaybackState::Unknown(t) => t@ == info.status_raw@ && spec_status_state(info.status_raw@) is Unknown,
                        _ => st == spec_status_state(info.status_raw@),
                    },
                },
    {
        let first = self.fetch_playback_info(send, decode);
        let ghost fv = first;
        let r = match first {
            Err(e) => Err(e),
            Ok(info) => Ok(info.playback_state()),
        };
        assert(fetched_info(*send, *decode, self.host_view(), self.port_view(), self.timeout_view(), fv));
        r
    }

    /// The position, from the playback information, completed from the
    /// current queue item `current` (see [`position_with_queue_item`]).
    pub fn playback_position<
        S: Fn(ArylicCommand) -> Result<Option<String>, ControlPointError>,
        D: Fn(String) -> Result<ArylicPlaybackInfoRaw, String>,
    >(&self, send: &S, decode: &D, current: Option<&PlaybackItem>) -> (r: Result<PlaybackPositionInfo, ControlPointError>)
        requires
            send_total(*send),
            forall|s: String| #[trigger] decode.requires((s,)),
        ensures
            exists|first: Result<ArylicPlaybackInfo, ControlPointError>|
                #[trigger] fetched_info(*send, *decode, self.host_view(), self.port_view(), self.timeout_view(), first)
                    && match first {
                    Err(e) => r == Err::<PlaybackPositionInfo, ControlPointError>(e),
                    Ok(info) => r matches Ok(p) && reported_position(info, current, p),
                },
    {
        let first = self.fetch_playback_info(send, decode);
        let ghost fv = first;
        let r = match first {
            Err(e) => Err(e),
            Ok(info) => Ok(position_with_queue_item(info.position_info(), current)),
        };
        assert(fetched_info(*send, *decode, self.host_view(), self.port_view(), self.timeout_view(), fv));
        r
    }
}

/// `p` is the position an Arylic device reports from its playback
/// information `info`, completed from the current queue item `current`.
pub open spec fn reported_position(info: ArylicPlaybackInfo, current: Option<&PlaybackItem>, p: PlaybackPositionInfo) -> bool {
    &&& p.track == spec_track(info.track_index, info.playlist_size)
    &&& p.rel_time matches Some(t) && t@ == hhmmss((info.curpos_ms / 1000) as nat)
    &&& (info.totlen_ms > 0 ==> (p.track_duration matches Some(t) && t@ == hhmmss((info.totlen_ms / 1000) as nat)))
    &&& (info.totlen_ms == 0 ==> p.track_duration is None)
    &&& p.abs_time is None
    &&& match current {
        None => p.track_uri is None && p.track_metadata is None,
        Some(item) => {
            &&& p.track_uri matches Some(u) && u@ == item.uri@
            &&& match item.metadata {
                Some(m) => p.track_metadata matches Some(d) && d@ == spec_didl_lite_metadata(
                    m,
                    item.uri@,
                    item.protocol_info@,
                ),
                None => p.track_metadata is None,
            }
        },
    }
}

/// The mute answer reads back what the mute command sets: `AXX+MUT+`
/// followed by the digits of the command that sets `m` (`001` to mute,
/// `000` to unmute), or by the single digit `1` or `0`, reads as `m`; and
/// the two states answer differently.
pub proof fn law_mute_answer_reads_back_command(m: bool)
    ensures
        spec_mute_payload("AXX+MUT+"@ + spec_mute_command(m).skip(8)) == Ok::<bool, Seq<char>>(m),
        spec_mute_payload("AXX+MUT+"@ + (if m { "1"@ } else { "0"@ })) == Ok::<bool, Seq<char>>(m),
        spec_mute_payload("AXX+MUT+"@ + spec_mute_command(m).skip(8)) != spec_mute_payload(
            "AXX+MUT+"@ + spec_mute_command(!m).skip(8),
        ),
{
    reveal_strlit("AXX+MUT+");
    reveal_strlit("MCU+MUT+001");
    reveal_strlit("MCU+MUT+000");
    reveal_strlit("001");
    reveal_strlit("000");
    reveal_strlit("1");
    reveal_strlit("0");
    lemma_digits_trimmed("001"@);
    lemma_digits_trimmed("000"@);
    lemma_digits_trimmed("1"@);
    lemma_digits_trimmed("0"@);
    assert(spec_mute_command(true).skip(8) =~= "001"@);
    assert(spec_mute_command(false).skip(8) =~= "000"@);
    let a = "AXX+MUT+"@;
    assert((a + "001"@).subrange(0, a.len() as int) =~= a);
    assert((a + "000"@).subrange(0, a.len() as int) =~= a);
    assert((a + "1"@).subrange(0, a.len() as int) =~= a);
    assert((a + "0"@).subrange(0, a.len() as int) =~= a);
    assert((a + "001"@).skip(a.len() as int) =~= "001"@);
    assert((a + "000"@).skip(a.len() as int) =~= "000"@);
    assert((a + "1"@).skip(a.len() as int) =~= "1"@);
    assert((a + "0"@).skip(a.len() as int) =~= "0"@);
}

/// Digits have no surrounding whitespace to trim.
proof fn lemma_digits_trimmed(t: Seq<char>)
    requires
        1 <= t.len() <= 3,
        forall|i: int| 0 <= i < t.len() ==> '0' <= #[trigger] t[i] <= '9',
    ensures
        trim_seq(t) == t,
{
    assert(!crate::text::unicode_whitespace(t[0]));
    assert(!crate::text::unicode_whitespace(t.last()));
    assert(crate::text::leading_ws(t) == 0);
    assert(t.skip(0) =~= t);
    assert(crate::text::trailing_ws(t) == 0);
    assert(t.take(t.len() as int) =~= t);
}

} // verus!
