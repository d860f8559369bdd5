//! The commands of the LinkPlay HTTP API (`httpapi.asp`) that drive a
//! LinkPlay renderer. The HTTP requests go through the getter the caller
//! hands in, which says whether the request succeeded.
use crate::error::ControlPointError;
use crate::music_renderer::time_utils::{parse_hhmmss_strict, spec_parse_hhmmss_strict, strict_fits};
use crate::didl::push_text;
use crate::text::{dec, push_dec, str_chars, string_from_chars};
use vstd::prelude::*;

verus! {

/// The URL that sends a player command to a LinkPlay host.
pub open spec fn spec_command_url(host: Seq<char>, command: Seq<char>) -> Seq<char> {
    "http://"@ + host + "/httpapi.asp?command=setPlayerCmd:"@ + command
}

/// The URL that sends a player command to a LinkPlay host.
pub fn player_command_url(host: &str, command: &str) -> (r: String)
    ensures
        r@ == spec_command_url(host@, command@),
{
    let mut out: Vec<char> = Vec::new();
    push_text(&mut out, "http://");
    push_text(&mut out, host);
    push_text(&mut out, "/httpapi.asp?command=setPlayerCmd:");
    push_text(&mut out, command);
    string_from_chars(out.as_slice())
}

/// The volume command, the volume capped at 100.
pub fn volume_command(v: u16) -> (r: String)
    ensures
        r@ == "vol:"@ + dec(if v > 100 { 100 } else { v as nat }),
{
    let value: u64 = if v > 100 {
        100
    } else {
        v as u64
    };
    let mut out = str_chars("vol:");
    push_dec(&mut out, value);
    string_from_chars(out.as_slice())
}

/// The mute command.
pub fn mute_command(m: bool) -> (r: &'static str)
    ensures
        r@ == if m { "mute:1"@ } else { "mute:0"@ },
{
    if m {
        "mute:1"
    } else {
        "mute:0"
    }
}

/// The seek command for a strict `HH:MM:SS` position.
pub fn seek_command(hhmmss: &str) -> (r: Result<String, ControlPointError>)
    requires
        strict_fits(hhmmss@),
    ensures
        match spec_parse_hhmmss_strict(hhmmss@) {
            Some(s) => r matches Ok(c) && c@ == "seek:"@ + dec(s as nat),
            None => r matches Err(ControlPointError::InvalidTimeFormat(_)),
        },
{
    let secs = parse_hhmmss_strict(hhmmss)?;
    let mut out = str_chars("seek:");
    push_dec(&mut out, secs);
    Ok(string_from_chars(out.as_slice()))
}

/// `get` answered `ok` to a request of the URL `url`.
pub open spec fn fetched<G: Fn(String) -> bool>(get: G, url: Seq<char>, ok: bool) -> bool {
    exists|u: String| u@ == url && #[trigger] get.ensures((u,), ok)
}

/// `get` accepts every URL.
pub open spec fn getter_total<G: Fn(String) -> bool>(get: G) -> bool {
    forall|u: String| #[trigger] get.requires((u,))
}

/// `r` is what sending `command` to `host` answers: `Ok` exactly when the
/// request of its URL succeeded, an error naming the command and the host
/// otherwise.
pub open spec fn command_sent<G: Fn(String) -> bool>(
    get: G,
    host: Seq<char>,
    command: Seq<char>,
    r: Result<(), ControlPointError>,
) -> bool {
    &&& fetched(get, spec_command_url(host, command), r is Ok)
    &&& r matches Err(e) ==> e matches ControlPointError::ArilycTcpError(m) && m@ == "LinkPlay command "@ + command
        + " failed for "@ + host
}

/// A renderer driven through the LinkPlay HTTP API of its host.
#[derive(Debug, Clone)]
pub struct LinkPlayRenderer {
    host: String,
}

impl LinkPlayRenderer {
    /// The host the commands are sent to.
    pub closed spec fn host_view(&self) -> Seq<char> {
        self.host@
    }

    /// A renderer for the LinkPlay host `host`.
    pub fn new(host: String) -> (r: Self)
        ensures
            r.host_view() == host@,
    {
        LinkPlayRenderer { host }
    }

    /// The host the commands are sent to.
    pub fn host(&self) -> (r: &str)
        ensures
            r@ == self.host_view(),
    {
        self.host.as_str()
    }

    fn send_player_command<G: Fn(String) -> bool>(&self, get: &G, command: &str) -> (r: Result<(), ControlPointError>)
        requires
            getter_total(*get),
        ensures
            command_sent(*get, self.host_view(), command@, r),
    {
        let url = player_command_url(self.host.as_str(), command);
        let ghost uv = url@;
        let ok = get(url);
        proof {
            assert(fetched(*get, uv, ok));
        }
        if ok {
            Ok(())
        } else {
            let mut out: Vec<char> = Vec::new();
            push_text(&mut out, "LinkPlay command ");
            push_text(&mut out, command);
            push_text(&mut out, " failed for ");
            push_text(&mut out, self.host.as_str());
            Err(ControlPointError::ArilycTcpError(string_from_chars(out.as_slice())))
        }
    }

    /// Resumes playback (`resume`).
    pub fn play<G: Fn(String) -> bool>(&self, get: &G) -> (r: Result<(), ControlPointError>)
        requires
            getter_total(*get),
        ensures
            command_sent(*get, self.host_view(), "resume"@, r),
    {
        self.send_player_command(get, "resume")
    }

    /// Pauses playback (`pause`).
    pub fn pause<G: Fn(String) -> bool>(&self, get: &G) -> (r: Result<(), ControlPointError>)
        requires
            getter_total(*get),
        ensures
            command_sent(*get, self.host_view(), "pause"@, r),
    {
        self.send_player_command(get, "pause")
    }

    /// Stops playback (`stop`).
    pub fn stop<G: Fn(String) -> bool>(&self, get: &G) -> (r: Result<(), ControlPointError>)
        requires
            getter_total(*get),
        ensures
            command_sent(*get, self.host_view(), "stop"@, r),
    {
        self.send_player_command(get, "stop")
    }

    /// Seeks to a strict `HH:MM:SS` position; a malformed position is refused
    /// before anything is sent.
    pub fn seek_rel_time<G: Fn(String) -> bool>(&self, get: &G, hhmmss: &str) -> (r: Result<(), ControlPointError>)
        requires
            getter_total(*get),
            strict_fits(hhmmss@),
        ensures
            match spec_parse_hhmmss_strict(hhmmss@) {
                Some(s) => command_sent(*get, self.host_view(), "seek:"@ + dec(s as nat), r),
                None => r matches Err(ControlPointError::InvalidTimeFormat(_)),
            },
    {
        let command = match seek_command(hhmmss) {
            Ok(c) => c,
            Err(e) => {
                return Err(e);
            },
        };
        self.send_player_command(get, command.as_str())
    }

    /// Sets the volume, capped at 100.
    pub fn set_volume<G: Fn(String) -> bool>(&self, get: &G, v: u16) -> (r: Result<(), ControlPointError>)
        requires
            getter_total(*get),
        ensures
            command_sent(*get, self.host_view(), "vol:"@ + dec(if v > 100 { 100 } else { v as nat }), r),
    {
        let command = volume_command(v);
        self.send_player_command(get, command.as_str())
    }

    /// Mutes or unmutes.
    pub fn set_mute<G: Fn(String) -> bool>(&self, get: &G, m: bool) -> (r: Result<(), ControlPointError>)
        requires
            getter_total(*get),
        ensures
            command_sent(*get, self.host_view(), if m { "mute:1"@ } else { "mute:0"@ }, r),
    {
        self.send_player_command(get, mute_command(m))
    }
}

} // verus!
