//! Client of the UPnP RenderingControl service.
use crate::error::{msg, ControlPointError};
use crate::soap::{
    agrees, agrees_text, agrees_unit, answered, call_text, call_unit, no_args, num_arg, one_arg,
    pairs_view, request_view, spec_success, spec_text_field, text_arg, transport_total,
    SoapCallResult, SoapRequest, SoapRequestView,
};
use crate::text::{dec, spec_parse_uint, str_chars, parse_uint};
use crate::xml::strs_view;
use vstd::prelude::*;

verus! {

/// Client of the RenderingControl:1 service.
#[derive(Debug, Clone)]
pub struct RenderingControlClient {
    pub control_url: String,
    pub service_type: String,
}

/// `CurrentVolume` of a `GetVolume` reply, as a `u16`.
pub open spec fn spec_get_volume(reply: SoapCallResult) -> Option<u16> {
    match spec_text_field(reply, "GetVolumeResponse"@, seq!["CurrentVolume"@]) {
        Some(t) => match spec_parse_uint(t, u16::MAX as nat) {
            Some(v) => Some(v as u16),
            None => None,
        },
        None => None,
    }
}

/// `CurrentMute` of a `GetMute` reply: exactly `0` or `1`.
pub open spec fn spec_get_mute(reply: SoapCallResult) -> Option<bool> {
    match spec_text_field(reply, "GetMuteResponse"@, seq!["CurrentMute"@]) {
        Some(t) => if t == "0"@ {
            Some(false)
        } else if t == "1"@ {
            Some(true)
        } else {
            None
        },
        None => None,
    }
}

impl RenderingControlClient {
    /// The request view of one of this service's actions.
    pub open spec fn request(&self, action: Seq<char>, args: Seq<(Seq<char>, Seq<char>)>) -> SoapRequestView {
        request_view(self.control_url@, self.service_type@, action, args)
    }

    /// A client for the given control URL and service type.
    pub fn new(control_url: String, service_type: String) -> (r: Self)
        ensures
            r.control_url == control_url,
            r.service_type == service_type,
    {
        Self { control_url, service_type }
    }

    /// `GetVolume`.
    pub fn get_volume<F: Fn(SoapRequest) -> SoapCallResult>(&self, transport: &F, instance_id: u32, channel: &str) -> (r: Result<u16, ControlPointError>)
        requires
            transport_total(*transport),
        ensures
            exists|reply: SoapCallResult|
                answered(*transport, self.request("GetVolume"@, seq![("InstanceID"@, dec(instance_id as nat)), ("Channel"@, channel@)]), reply)
                    && agrees(r, spec_get_volume(reply)),
    {
        let names: [&str; 1] = ["CurrentVolume"];
        let ns = vstd::array::array_as_slice(&names);
        assert(strs_view(ns@) =~= seq!["CurrentVolume"@]);
        let a0 = num_arg("InstanceID", instance_id as u64);
        let a1 = text_arg("Channel", channel);
        let args = vec![a0, a1];
        let ghost av = pairs_view(args@);
        let t = call_text(transport, &self.control_url, &self.service_type, "GetVolume", args, "GetVolumeResponse", ns);
        let r = match &t {
            Ok(x) => {
                let cs = str_chars(x.as_str());
                match parse_uint(cs.as_slice(), 65535) {
                    Some(v) => Ok(v as u16),
                    None => Err(ControlPointError::UpnpError(msg("Invalid CurrentVolume value"))),
                }
            },
            Err(e) => Err(e.clone()),
        };
        proof {
            let reply = choose|reply: SoapCallResult| answered(*transport, request_view(self.control_url@, self.service_type@, "GetVolume"@, av), reply) && agrees_text(t, spec_text_field(reply, "GetVolumeResponse"@, strs_view(ns@)));
            assert(av =~= seq![("InstanceID"@, dec(instance_id as nat)), ("Channel"@, channel@)]);
            assert(answered(*transport, self.request("GetVolume"@, seq![("InstanceID"@, dec(instance_id as nat)), ("Channel"@, channel@)]), reply));
        }
        r
    }

    /// `SetVolume`.
    pub fn set_volume<F: Fn(SoapRequest) -> SoapCallResult>(&self, transport: &F, instance_id: u32, channel: &str, volume: u16) -> (r: Result<(), ControlPointError>)
        requires
            transport_total(*transport),
        ensures
            exists|reply: SoapCallResult|
                answered(*transport, self.request("SetVolume"@, seq![("InstanceID"@, dec(instance_id as nat)), ("Channel"@, channel@), ("DesiredVolume"@, dec(volume as nat))]), reply) && agrees_unit(r, spec_success(reply) is Some),
    {
        let a0 = num_arg("InstanceID", instance_id as u64);
        let a1 = text_arg("Channel", channel);
        let a2 = num_arg("DesiredVolume", volume as u64);
        let args = vec![a0, a1, a2];
        let ghost av = pairs_view(args@);
        let r = call_unit(transport, &self.control_url, &self.service_type, "SetVolume", args);
        proof {
            let reply = choose|reply: SoapCallResult| answered(*transport, request_view(self.control_url@, self.service_type@, "SetVolume"@, av), reply) && agrees_unit(r, spec_success(reply) is Some);
            assert(av =~= seq![("InstanceID"@, dec(instance_id as nat)), ("Channel"@, channel@), ("DesiredVolume"@, dec(volume as nat))]);
            assert(answered(*transport, self.request("SetVolume"@, seq![("InstanceID"@, dec(instance_id as nat)), ("Channel"@, channel@), ("DesiredVolume"@, dec(volume as nat))]), reply));
        }
        r
    }

    /// `GetMute`.
    pub fn get_mute<F: Fn(SoapRequest) -> SoapCallResult>(&self, transport: &F, instance_id: u32, channel: &str) -> (r: Result<bool, ControlPointError>)
        requires
            transport_total(*transport),
        ensures
            exists|reply: SoapCallResult|
                answered(*transport, self.request("GetMute"@, seq![("InstanceID"@, dec(instance_id as nat)), ("Channel"@, channel@)]), reply)
                    && agrees(r, spec_get_mute(reply)),
    {
        let names: [&str; 1] = ["CurrentMute"];
        let ns = vstd::array::array_as_slice(&names);
        assert(strs_view(ns@) =~= seq!["CurrentMute"@]);
        let a0 = num_arg("InstanceID", instance_id as u64);
        let a1 = text_arg("Channel", channel);
        let args = vec![a0, a1];
        let ghost av = pairs_view(args@);
        let t = call_text(transport, &self.control_url, &self.service_type, "GetMute", args, "GetMuteResponse", ns);
        let r = match &t {
            Ok(x) => {
                let cs = str_chars(x.as_str());
                if crate::text::chars_eq_str(cs.as_slice(), "0") {
                    Ok(false)
                } else if crate::text::chars_eq_str(cs.as_slice(), "1") {
                    Ok(true)
                } else {
                    Err(ControlPointError::UpnpError(msg("Invalid CurrentMute value (expected 0 or 1)")))
                }
            },
            Err(e) => Err(e.clone()),
        };
        proof {
            let reply = choose|reply: SoapCallResult| answered(*transport, request_view(self.control_url@, self.service_type@, "GetMute"@, av), reply) && agrees_text(t, spec_text_field(reply, "GetMuteResponse"@, strs_view(ns@)));
            assert(av =~= seq![("InstanceID"@, dec(instance_id as nat)), ("Channel"@, channel@)]);
            assert(answered(*transport, self.request("GetMute"@, seq![("InstanceID"@, dec(instance_id as nat)), ("Channel"@, channel@)]), reply));
        }
        r
    }

    /// `SetMute`: `1` to mute, `0` to unmute.
    pub fn set_mute<F: Fn(SoapRequest) -> SoapCallResult>(&self, transport: &F, instance_id: u32, channel: &str, mute: bool) -> (r: Result<(), ControlPointError>)
        requires
            transport_total(*transport),
        ensures
            exists|reply: SoapCallResult|
                answered(*transport, self.request("SetMute"@, seq![("InstanceID"@, dec(instance_id as nat)), ("Channel"@, channel@), ("DesiredMute"@, if mute { "1"@ } else { "0"@ })]), reply)
                    && agrees_unit(r, spec_success(reply) is Some),
    {
        let a0 = num_arg("InstanceID", instance_id as u64);
        let a1 = text_arg("Channel", channel);
        let a2 = text_arg("DesiredMute", if mute { "1" } else { "0" });
        let args = vec![a0, a1, a2];
        let ghost av = pairs_view(args@);
        let r = call_unit(transport, &self.control_url, &self.service_type, "SetMute", args);
        proof {
            let reply = choose|reply: SoapCallResult| answered(*transport, request_view(self.control_url@, self.service_type@, "SetMute"@, av), reply) && agrees_unit(r, spec_success(reply) is Some);
            assert(av =~= seq![("InstanceID"@, dec(instance_id as nat)), ("Channel"@, channel@), ("DesiredMute"@, if mute { "1"@ } else { "0"@ })]);
            assert(answered(*transport, self.request("SetMute"@, seq![("InstanceID"@, dec(instance_id as nat)), ("Channel"@, channel@), ("DesiredMute"@, if mute { "1"@ } else { "0"@ })]), reply));
        }
        r
    }
}

} // verus!
