//! Error type of the control point.
use crate::text::{dec, push_chars, push_dec, str_chars, string_from_chars};
use vstd::prelude::*;
use vstd::string::*;

verus! {

/// Errors raised by the control point logic.
#[derive(Debug, Clone)]
pub enum ControlPointError {
    /// A time string could not be interpreted.
    InvalidTimeFormat(String),
    /// A queue operation was refused.
    QueueError(String),
    /// An OpenHome service answered something unexpected.
    OpenHomeError(String),
    /// A SOAP action failed.
    SoapAction(String),
    /// A UPnP service reported an error.
    UpnpError(String),
    /// A SOAP response lacks an expected element.
    UpnpMissingReturnValue(String),
    /// A SOAP response holds a value that cannot be interpreted.
    UpnpBadReturnValue(String, String),
    /// The renderer does not offer the requested operation.
    UpnpOperationNotSupported(String, String),
    /// The OpenHome product exposes no playlist source.
    OpenHomeNoPlaylistEntry(),
    /// The device exposes no OpenHome service at all.
    OpenHomeNotAValidDevice(String),
    /// The Arylic TCP protocol answered something unexpected.
    ArilycTcpError(String),
    /// The LinkPlay HTTP API answered something unexpected.
    LinkPlayError(String),
    /// A queue synchronisation was interrupted by a newer one.
    SyncCancelled,
    /// A request to the control point was refused.
    ControlPoint(String),
}

/// The description carried by an error (its first text, empty when it has none).
pub open spec fn error_text(e: ControlPointError) -> Seq<char> {
    match e {
        ControlPointError::InvalidTimeFormat(m) => m@,
        ControlPointError::QueueError(m) => m@,
        ControlPointError::OpenHomeError(m) => m@,
        ControlPointError::SoapAction(m) => m@,
        ControlPointError::UpnpError(m) => m@,
        ControlPointError::UpnpMissingReturnValue(m) => m@,
        ControlPointError::UpnpBadReturnValue(m, _) => m@,
        ControlPointError::UpnpOperationNotSupported(m, _) => m@,
        ControlPointError::OpenHomeNoPlaylistEntry() => Seq::empty(),
        ControlPointError::OpenHomeNotAValidDevice(m) => m@,
        ControlPointError::ArilycTcpError(m) => m@,
        ControlPointError::LinkPlayError(m) => m@,
        ControlPointError::SyncCancelled => Seq::empty(),
        ControlPointError::ControlPoint(m) => m@,
    }
}

impl ControlPointError {
    /// The description carried by the error.
    pub fn message(&self) -> (r: String)
        ensures
            r@ == error_text(*self),
    {
        match self {
            ControlPointError::InvalidTimeFormat(m) => m.clone(),
            ControlPointError::QueueError(m) => m.clone(),
            ControlPointError::OpenHomeError(m) => m.clone(),
            ControlPointError::SoapAction(m) => m.clone(),
            ControlPointError::UpnpError(m) => m.clone(),
            ControlPointError::UpnpMissingReturnValue(m) => m.clone(),
            ControlPointError::UpnpBadReturnValue(m, _) => m.clone(),
            ControlPointError::UpnpOperationNotSupported(m, _) => m.clone(),
            ControlPointError::OpenHomeNoPlaylistEntry() => String::new(),
            ControlPointError::OpenHomeNotAValidDevice(m) => m.clone(),
            ControlPointError::ArilycTcpError(m) => m.clone(),
            ControlPointError::LinkPlayError(m) => m.clone(),
            ControlPointError::SyncCancelled => String::new(),
            ControlPointError::ControlPoint(m) => m.clone(),
        }
    }

    /// Error for an element missing from a SOAP response.
    pub fn upnp_missing_return_value(name: &str) -> (r: ControlPointError)
        ensures
            r matches ControlPointError::UpnpMissingReturnValue(n) && n@ == name@,
    {
        ControlPointError::UpnpMissingReturnValue(String::from_str(name))
    }

    /// Error for an operation that the renderer does not offer.
    pub fn upnp_operation_not_supported(op: &str, service: &str) -> (r: ControlPointError)
        ensures
            r matches ControlPointError::UpnpOperationNotSupported(o, s) && o@ == op@ && s@
                == service@,
    {
        ControlPointError::UpnpOperationNotSupported(String::from_str(op), String::from_str(service))
    }
}

/// A `String` holding the characters of a literal or slice.
pub fn msg(s: &str) -> (r: String)
    ensures
        r@ == s@,
{
    String::from_str(s)
}

/// `prefix` followed by `detail`.
pub fn msg2(prefix: &str, detail: &str) -> (r: String)
    ensures
        r@ == prefix@ + detail@,
{
    let mut out = String::from_str(prefix);
    out.append(detail);
    out
}

/// `prefix`, the decimal `a`, `sep` and the decimal `b`.
pub fn msg_nums(prefix: &str, a: u64, sep: &str, b: u64) -> (r: String)
    ensures
        r@ == prefix@ + dec(a as nat) + sep@ + dec(b as nat),
{
    let mut out = str_chars(prefix);
    push_dec(&mut out, a);
    let s = str_chars(sep);
    push_chars(&mut out, s.as_slice());
    push_dec(&mut out, b);
    string_from_chars(out.as_slice())
}

/// `prefix`, the decimal `a` and `suffix`.
pub fn msg_num(prefix: &str, a: u64, suffix: &str) -> (r: String)
    ensures
        r@ == prefix@ + dec(a as nat) + suffix@,
{
    let mut out = str_chars(prefix);
    push_dec(&mut out, a);
    let s = str_chars(suffix);
    push_chars(&mut out, s.as_slice());
    string_from_chars(out.as_slice())
}

} // verus!
