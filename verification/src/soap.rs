//! SOAP requests and replies: what a UPnP action sends, how the reply is
//! checked, and how UPnP faults are read.
//!
//! The HTTP exchange itself is done by the caller, through a transport
//! function that turns a [`SoapRequest`] into a [`SoapCallResult`].
use crate::error::{msg, msg2, ControlPointError};
use crate::text::{
    ends_with_chars, occurs_at, occurs_at_exec, parse_uint, push_chars, seq_ends_with,
    seq_starts_with, spec_parse_uint, starts_with_chars, str_chars, string_from_chars, trim_chars,
    trim_seq,
};
use crate::xml::{
    extract_child_text, find_child_with_suffix, find_suffix_from, parse_xml_document,
    push_escaped, spec_child_text, spec_find_child, xml_document, xml_escape, XmlElement,
};
use vstd::prelude::*;

verus! {

/// One UPnP action invocation.
pub struct SoapRequest {
    pub control_url: String,
    pub service_type: String,
    pub action: String,
    pub args: Vec<(String, String)>,
}

/// Mathematical view of a [`SoapRequest`].
pub struct SoapRequestView {
    pub control_url: Seq<char>,
    pub service_type: Seq<char>,
    pub action: Seq<char>,
    pub args: Seq<(Seq<char>, Seq<char>)>,
}

/// Views of the argument pairs of a request.
pub open spec fn pairs_view(args: Seq<(String, String)>) -> Seq<(Seq<char>, Seq<char>)> {
    args.map_values(|p: (String, String)| (p.0@, p.1@))
}

impl View for SoapRequest {
    type V = SoapRequestView;

    open spec fn view(&self) -> SoapRequestView {
        SoapRequestView {
            control_url: self.control_url@,
            service_type: self.service_type@,
            action: self.action@,
            args: pairs_view(self.args@),
        }
    }
}

/// The `Body` element of a SOAP envelope.
pub struct SoapBody {
    pub content: XmlElement,
}

/// A parsed SOAP envelope.
pub struct SoapEnvelope {
    pub body: SoapBody,
}

/// Result of a SOAP call: HTTP status, raw body, and the envelope when the
/// body could be read as one.
pub struct SoapCallResult {
    pub status: u16,
    pub raw_body: String,
    pub envelope: Option<SoapEnvelope>,
}

/// A UPnP fault carried in a SOAP body.
#[derive(Debug, Clone)]
pub struct UpnpError {
    pub error_code: u32,
    pub error_description: String,
}

/// `reply` is what `transport` answered to a request whose view is `req`.
pub closed spec fn answered<F: Fn(SoapRequest) -> SoapCallResult>(
    transport: F,
    req: SoapRequestView,
    reply: SoapCallResult,
) -> bool {
    exists|q: SoapRequest| q@ == req && #[trigger] transport.ensures((q,), reply)
}

/// `transport` accepts every request.
pub open spec fn transport_total<F: Fn(SoapRequest) -> SoapCallResult>(transport: F) -> bool {
    forall|q: SoapRequest| #[trigger] transport.requires((q,))
}

/// The request view of an action.
pub open spec fn request_view(
    control_url: Seq<char>,
    service_type: Seq<char>,
    action: Seq<char>,
    args: Seq<(Seq<char>, Seq<char>)>,
) -> SoapRequestView {
    SoapRequestView { control_url, service_type, action, args }
}

/// Sends an action through `transport` and returns its reply.
pub fn invoke<F: Fn(SoapRequest) -> SoapCallResult>(
    transport: &F,
    control_url: &String,
    service_type: &String,
    action: &str,
    args: Vec<(String, String)>,
) -> (reply: SoapCallResult)
    requires
        transport_total(*transport),
    ensures
        answered(*transport, request_view(control_url@, service_type@, action@, pairs_view(args@)), reply),
{
    let req = build_request(control_url, service_type, action, args);
    send(transport, req)
}

/// The request for `action` with `args`, to the given control URL and
/// service type.
pub fn build_request(control_url: &String, service_type: &String, action: &str, args: Vec<(String, String)>) -> (r: SoapRequest)
    ensures
        r@ == request_view(control_url@, service_type@, action@, pairs_view(args@)),
{
    SoapRequest { control_url: control_url.clone(), service_type: service_type.clone(), action: msg(action), args }
}

/// Hands one request to the transport and gives its answer.
pub fn send<F: Fn(SoapRequest) -> SoapCallResult>(transport: &F, req: SoapRequest) -> (reply: SoapCallResult)
    requires
        transport_total(*transport),
    ensures
        answered(*transport, req@, reply),
{
    let ghost rv = req@;
    let ghost q = req;
    let reply = transport(req);
    proof {
        assert(q@ == rv && transport.ensures((q,), reply));
    }
    reply
}

/// A single named argument.
pub fn arg(name: &str, value: String) -> (r: (String, String))
    ensures
        r.0@ == name@,
        r.1 == value,
{
    (msg(name), value)
}

/// The `Body` child of a document whose root is an `Envelope`.
pub open spec fn spec_envelope(doc: Option<XmlElement>) -> Option<XmlElement> {
    match doc {
        Some(root) => if seq_ends_with(root.name@, seq!['E', 'n', 'v', 'e', 'l', 'o', 'p', 'e']) {
            spec_find_child(root, seq!['B', 'o', 'd', 'y'])
        } else {
            None
        },
        None => None,
    }
}

impl SoapCallResult {
    /// Builds the call result from an HTTP status and the response body,
    /// reading the body as a SOAP envelope when it is one.
    pub fn from_response(status: u16, raw_body: String) -> (r: SoapCallResult)
        ensures
            r.status == status,
            r.raw_body == raw_body,
            match spec_envelope(xml_document(raw_body@)) {
                Some(b) => r.envelope matches Some(env) && env.body.content == b,
                None => r.envelope is None,
            },
    {
        let doc = parse_xml_document(raw_body.as_str());
        let envelope = match doc {
            None => None,
            Some(root) => {
                let rn = str_chars(root.name.as_str());
                let env_name = str_chars("Envelope");
                proof {
                    reveal_strlit("Envelope");
                    assert(env_name@ =~= seq!['E', 'n', 'v', 'e', 'l', 'o', 'p', 'e']);
                }
                if ends_with_chars(rn.as_slice(), env_name.as_slice()) {
                    let ghost gr = root;
                    let mut root = root;
                    let idx = body_index(&root);
                    match idx {
                        Some(i) => {
                            let content = root.children.swap_remove(i);
                            proof {
                                assert(spec_find_child(gr, seq!['B', 'o', 'd', 'y']) == Some(content));
                            }
                            Some(SoapEnvelope { body: SoapBody { content } })
                        },
                        None => None,
                    }
                } else {
                    None
                }
            },
        };
        SoapCallResult { status, raw_body, envelope }
    }
}

/// Index of the `Body` child.
fn body_index(root: &XmlElement) -> (r: Option<usize>)
    ensures
        match r {
            Some(i) => find_suffix_from(root.children@, seq!['B', 'o', 'd', 'y'], 0) == Some(i as int)
                && i < root.children@.len(),
            None => find_suffix_from(root.children@, seq!['B', 'o', 'd', 'y'], 0) is None,
        },
{
    let sfx = str_chars("Body");
    proof {
        reveal_strlit("Body");
        assert(sfx@ =~= seq!['B', 'o', 'd', 'y']);
    }
    let mut i: usize = 0;
    while i < root.children.len()
        invariant
            sfx@ == seq!['B', 'o', 'd', 'y'],
            i <= root.children@.len(),
            find_suffix_from(root.children@, sfx@, 0) == find_suffix_from(root.children@, sfx@, i as int),
        decreases root.children@.len() - i,
    {
        let name = str_chars(root.children[i].name.as_str());
        if ends_with_chars(name.as_slice(), sfx.as_slice()) {
            return Some(i);
        }
        i = i + 1;
    }
    None
}

/// Trimmed text of the first child whose name ends with `suffix` and that has text.
pub open spec fn first_text_with_suffix(ch: Seq<XmlElement>, suffix: Seq<char>, i: int) -> Option<Seq<char>>
    decreases ch.len() - i,
{
    if i < 0 || i >= ch.len() {
        None
    } else if seq_ends_with(ch[i].name@, suffix) && ch[i].text is Some {
        Some(trim_seq(ch[i].text->0@))
    } else {
        first_text_with_suffix(ch, suffix, i + 1)
    }
}

/// The UPnP fault of a SOAP body: `Fault/detail/UPnPError` with an
/// `errorCode` holding a `u32`, and the first `errorDescription` text.
pub open spec fn spec_upnp_error(content: XmlElement) -> Option<(u32, Seq<char>)> {
    match spec_find_child(content, seq!['F', 'a', 'u', 'l', 't']) {
        None => None,
        Some(fault) => match spec_find_child(fault, seq!['d', 'e', 't', 'a', 'i', 'l']) {
            None => None,
            Some(detail) => match spec_find_child(detail, seq!['U', 'P', 'n', 'P', 'E', 'r', 'r', 'o', 'r']) {
                None => None,
                Some(ue) => match spec_child_text(ue, seq!['e', 'r', 'r', 'o', 'r', 'C', 'o', 'd', 'e']) {
                    None => None,
                    Some(t) => match spec_parse_uint(t, u32::MAX as nat) {
                        None => None,
                        Some(code) => Some(
                            (
                                code as u32,
                                match first_text_with_suffix(
                                    ue.children@,
                                    seq!['e', 'r', 'r', 'o', 'r', 'D', 'e', 's', 'c', 'r', 'i', 'p', 't', 'i', 'o', 'n'],
                                    0,
                                ) {
                                    Some(d) => d,
                                    None => Seq::empty(),
                                },
                            ),
                        ),
                    },
                },
            },
        },
    }
}

fn first_text_child(parent: &XmlElement, suffix: &str) -> (r: String)
    ensures
        r@ == match first_text_with_suffix(parent.children@, suffix@, 0) {
            Some(d) => d,
            None => Seq::empty(),
        },
{
    let sfx = str_chars(suffix);
    let mut i: usize = 0;
    while i < parent.children.len()
        invariant
            sfx@ == suffix@,
            i <= parent.children@.len(),
            first_text_with_suffix(parent.children@, suffix@, 0) == first_text_with_suffix(
                parent.children@,
                suffix@,
                i as int,
            ),
        decreases parent.children@.len() - i,
    {
        let child = &parent.children[i];
        let name = str_chars(child.name.as_str());
        if ends_with_chars(name.as_slice(), sfx.as_slice()) {
            match &child.text {
                Some(t) => {
                    let cs = str_chars(t.as_str());
                    let tr = trim_chars(cs.as_slice());
                    return string_from_chars(tr.as_slice());
                },
                None => {},
            }
        }
        i = i + 1;
    }
    String::new()
}

/// Reads the UPnP fault of a SOAP envelope, if it carries one.
pub fn parse_upnp_error(envelope: &SoapEnvelope) -> (r: Option<UpnpError>)
    ensures
        match r {
            Some(e) => spec_upnp_error(envelope.body.content) == Some(
                (e.error_code, e.error_description@),
            ),
            None => spec_upnp_error(envelope.body.content) is None,
        },
{
    proof {
        reveal_strlit("Fault");
        reveal_strlit("detail");
        reveal_strlit("UPnPError");
        reveal_strlit("errorCode");
        reveal_strlit("errorDescription");
        assert("Fault"@ =~= seq!['F', 'a', 'u', 'l', 't']);
        assert("detail"@ =~= seq!['d', 'e', 't', 'a', 'i', 'l']);
        assert("UPnPError"@ =~= seq!['U', 'P', 'n', 'P', 'E', 'r', 'r', 'o', 'r']);
        assert("errorCode"@ =~= seq!['e', 'r', 'r', 'o', 'r', 'C', 'o', 'd', 'e']);
        assert("errorDescription"@ =~= seq!['e', 'r', 'r', 'o', 'r', 'D', 'e', 's', 'c', 'r', 'i', 'p', 't', 'i', 'o', 'n']);
    }
    let fault = match find_child_with_suffix(&envelope.body.content, "Fault") {
        Some(f) => f,
        None => {
            return None;
        },
    };
    let detail = match find_child_with_suffix(fault, "detail") {
        Some(d) => d,
        None => {
            return None;
        },
    };
    let upnp_error = match find_child_with_suffix(detail, "UPnPError") {
        Some(u) => u,
        None => {
            return None;
        },
    };
    let code_text = match extract_child_text(upnp_error, "errorCode") {
        Ok(t) => t,
        Err(_) => {
            return None;
        },
    };
    let code_chars = str_chars(code_text.as_str());
    let code = match parse_uint(code_chars.as_slice(), u32::MAX as u64) {
        Some(c) => c as u32,
        None => {
            return None;
        },
    };
    let description = first_text_child(upnp_error, "errorDescription");
    Some(UpnpError { error_code: code, error_description: description })
}

/// The envelope of a reply whose HTTP status is a success and whose body
/// carries no UPnP fault.
pub open spec fn spec_success(reply: SoapCallResult) -> Option<XmlElement> {
    if 200 <= reply.status < 300 {
        match reply.envelope {
            Some(env) => if spec_upnp_error(env.body.content) is None {
                Some(env.body.content)
            } else {
                None
            },
            None => None,
        }
    } else {
        None
    }
}

/// Checks that an action succeeded and returns its envelope.
pub fn ensure_success<'a>(action: &str, call_result: &'a SoapCallResult) -> (r: Result<&'a SoapEnvelope, ControlPointError>)
    ensures
        r is Ok <==> spec_success(*call_result) is Some,
        r matches Ok(env) ==> spec_success(*call_result) == Some(env.body.content),
        r matches Err(e) ==> e is SoapAction,
{
    let fault = match &call_result.envelope {
        Some(env) => parse_upnp_error(env),
        None => None,
    };
    let mut text: Vec<char> = crate::text::str_chars(action);
    match fault {
        Some(err) => {
            let m = crate::text::str_chars(" failed with UPnP error ");
            push_chars(&mut text, m.as_slice());
            crate::text::push_dec(&mut text, err.error_code as u64);
            text.push(':');
            text.push(' ');
            let d = crate::text::str_chars(err.error_description.as_str());
            push_chars(&mut text, d.as_slice());
            let m2 = crate::text::str_chars(" (HTTP status ");
            push_chars(&mut text, m2.as_slice());
            crate::text::push_dec(&mut text, call_result.status as u64);
            text.push(')');
            return Err(ControlPointError::SoapAction(string_from_chars(text.as_slice())));
        },
        None => {},
    }
    if !(call_result.status >= 200 && call_result.status < 300) {
        let m = crate::text::str_chars(" failed with HTTP status ");
        push_chars(&mut text, m.as_slice());
        crate::text::push_dec(&mut text, call_result.status as u64);
        let m2 = crate::text::str_chars(" and body: ");
        push_chars(&mut text, m2.as_slice());
        let b = crate::text::str_chars(call_result.raw_body.as_str());
        push_chars(&mut text, b.as_slice());
        return Err(ControlPointError::SoapAction(string_from_chars(text.as_slice())));
    }
    match &call_result.envelope {
        None => Err(ControlPointError::SoapAction(msg2("missing SOAP envelope in response to ", action))),
        Some(env) => Ok(env),
    }
}

/// Checks that an action without return values succeeded.
pub fn handle_action_response(action: &str, call_result: &SoapCallResult) -> (r: Result<(), ControlPointError>)
    ensures
        r is Ok <==> spec_success(*call_result) is Some,
        r matches Err(e) ==> e is SoapAction,
{
    match ensure_success(action, call_result) {
        Ok(_) => Ok(()),
        Err(e) => Err(e),
    }
}

/// The element of the response named `<action>Response` in a successful reply.
pub open spec fn spec_response(reply: SoapCallResult, response: Seq<char>) -> Option<XmlElement> {
    match spec_success(reply) {
        Some(content) => spec_find_child(content, response),
        None => None,
    }
}

/// The element named by `response` (a suffix) in a successful reply.
pub fn response_element<'a>(action: &str, call_result: &'a SoapCallResult, response: &str) -> (r: Result<&'a XmlElement, ControlPointError>)
    ensures
        r is Ok <==> spec_response(*call_result, response@) is Some,
        r matches Ok(e) ==> spec_response(*call_result, response@) == Some(*e),
{
    let env = ensure_success(action, call_result)?;
    match find_child_with_suffix(&env.body.content, response) {
        Some(e) => Ok(e),
        None => Err(ControlPointError::UpnpMissingReturnValue(msg(response))),
    }
}

/// The SOAP envelope text of an action: the action element in the service
/// namespace, holding one element per argument with its escaped value.
pub open spec fn soap_body(service_type: Seq<char>, action: Seq<char>, args: Seq<(Seq<char>, Seq<char>)>) -> Seq<char> {
    soap_prefix() + seq!['<', 'u', ':'] + action + seq![' ', 'x', 'm', 'l', 'n', 's', ':', 'u', '=', '"']
        + service_type + seq!['"', '>'] + soap_args(args) + seq!['<', '/', 'u', ':'] + action + seq!['>']
        + soap_suffix()
}

/// Opening of a SOAP envelope up to the `Body` element.
pub open spec fn soap_prefix() -> Seq<char> {
    "<?xml version=\"1.0\" encoding=\"utf-8\"?><s:Envelope xmlns:s=\"http://schemas.xmlsoap.org/soap/envelope/\" s:encodingStyle=\"http://schemas.xmlsoap.org/soap/encoding/\"><s:Body>"@
}

/// Closing of a SOAP envelope after the `Body` content.
pub open spec fn soap_suffix() -> Seq<char> {
    "</s:Body></s:Envelope>"@
}

/// Argument elements of an action.
pub open spec fn soap_args(args: Seq<(Seq<char>, Seq<char>)>) -> Seq<char>
    decreases args.len(),
{
    if args.len() == 0 {
        Seq::empty()
    } else {
        let (n, v) = args.last();
        soap_args(args.drop_last()) + seq!['<'] + n + seq!['>'] + xml_escape(v) + seq!['<', '/'] + n
            + seq!['>']
    }
}

/// Builds the SOAP envelope of an action.
pub fn build_soap_body(action: &str, service_type: &str, args: &[(&str, &str)]) -> (r: String)
    ensures
        r@ == soap_body(service_type@, action@, args@.map_values(|p: (&str, &str)| (p.0@, p.1@))),
{
    let ghost av = args@.map_values(|p: (&str, &str)| (p.0@, p.1@));
    let mut out: Vec<char> = Vec::new();
    let pre = str_chars("<?xml version=\"1.0\" encoding=\"utf-8\"?><s:Envelope xmlns:s=\"http://schemas.xmlsoap.org/soap/envelope/\" s:encodingStyle=\"http://schemas.xmlsoap.org/soap/encoding/\"><s:Body>");
    push_chars(&mut out, pre.as_slice());
    out.push('<');
    out.push('u');
    out.push(':');
    let a = str_chars(action);
    push_chars(&mut out, a.as_slice());
    let ns = str_chars(" xmlns:u=\"");
    proof {
        reveal_strlit(" xmlns:u=\"");
    }
    push_chars(&mut out, ns.as_slice());
    let st = str_chars(service_type);
    push_chars(&mut out, st.as_slice());
    out.push('"');
    out.push('>');
    let ghost head = out@;
    let mut i: usize = 0;
    while i < args.len()
        invariant
            i <= args@.len(),
            av == args@.map_values(|p: (&str, &str)| (p.0@, p.1@)),
            out@ == head + soap_args(av.subrange(0, i as int)),
        decreases args@.len() - i,
    {
        let (n, v) = args[i];
        out.push('<');
        let nc = str_chars(n);
        push_chars(&mut out, nc.as_slice());
        out.push('>');
        push_escaped(&mut out, v);
        out.push('<');
        out.push('/');
        push_chars(&mut out, nc.as_slice());
        out.push('>');
        proof {
            let s = av.subrange(0, i + 1);
            assert(s.drop_last() =~= av.subrange(0, i as int));
            assert(s.last() == (n@, v@));
            assert(out@ =~= head + soap_args(s));
        }
        i = i + 1;
    }
    out.push('<');
    out.push('/');
    out.push('u');
    out.push(':');
    push_chars(&mut out, a.as_slice());
    out.push('>');
    let post = str_chars("</s:Body></s:Envelope>");
    push_chars(&mut out, post.as_slice());
    proof {
        assert(av.subrange(0, args@.len() as int) =~= av);
        assert(out@ =~= soap_body(service_type@, action@, av));
    }
    string_from_chars(out.as_slice())
}

impl SoapRequest {
    /// The SOAP envelope that carries this request.
    pub fn body(&self) -> (r: String)
        ensures
            r@ == soap_body(self.service_type@, self.action@, pairs_view(self.args@)),
    {
        let mut out: Vec<char> = Vec::new();
        let pre = str_chars("<?xml version=\"1.0\" encoding=\"utf-8\"?><s:Envelope xmlns:s=\"http://schemas.xmlsoap.org/soap/envelope/\" s:encodingStyle=\"http://schemas.xmlsoap.org/soap/encoding/\"><s:Body>");
        push_chars(&mut out, pre.as_slice());
        out.push('<');
        out.push('u');
        out.push(':');
        let a = str_chars(self.action.as_str());
        push_chars(&mut out, a.as_slice());
        let ns = str_chars(" xmlns:u=\"");
        proof {
            reveal_strlit(" xmlns:u=\"");
        }
        push_chars(&mut out, ns.as_slice());
        let st = str_chars(self.service_type.as_str());
        push_chars(&mut out, st.as_slice());
        out.push('"');
        out.push('>');
        let ghost head = out@;
        let ghost av = pairs_view(self.args@);
        let mut i: usize = 0;
        while i < self.args.len()
            invariant
                i <= self.args@.len(),
                av == pairs_view(self.args@),
                out@ == head + soap_args(av.subrange(0, i as int)),
            decreases self.args@.len() - i,
        {
            let n = self.args[i].0.as_str();
            let v = self.args[i].1.as_str();
            out.push('<');
            let nc = str_chars(n);
            push_chars(&mut out, nc.as_slice());
            out.push('>');
            push_escaped(&mut out, v);
            out.push('<');
            out.push('/');
            push_chars(&mut out, nc.as_slice());
            out.push('>');
            proof {
                let s = av.subrange(0, i + 1);
                assert(s.drop_last() =~= av.subrange(0, i as int));
                assert(s.last() == (n@, v@));
                assert(out@ =~= head + soap_args(s));
            }
            i = i + 1;
        }
        out.push('<');
        out.push('/');
        out.push('u');
        out.push(':');
        push_chars(&mut out, a.as_slice());
        out.push('>');
        let post = str_chars("</s:Body></s:Envelope>");
        push_chars(&mut out, post.as_slice());
        proof {
            assert(av.subrange(0, self.args@.len() as int) =~= av);
            assert(out@ =~= soap_body(self.service_type@, self.action@, av));
        }
        string_from_chars(out.as_slice())
    }

    /// The `SOAPAction` header value: `"<service type>#<action>"`.
    pub fn soap_action_header(&self) -> (r: String)
        ensures
            r@ == seq!['"'] + self.service_type@ + seq!['#'] + self.action@ + seq!['"'],
    {
        let mut out: Vec<char> = Vec::new();
        out.push('"');
        let st = str_chars(self.service_type.as_str());
        push_chars(&mut out, st.as_slice());
        out.push('#');
        let a = str_chars(self.action.as_str());
        push_chars(&mut out, a.as_slice());
        out.push('"');
        assert(out@ =~= seq!['"'] + self.service_type@ + seq!['#'] + self.action@ + seq!['"']);
        string_from_chars(out.as_slice())
    }
}

} // verus!

verus! {

/// `r` agrees with the expected outcome `s`: `Ok(v)` exactly when `s` is `Some(v)`.
pub open spec fn agrees<T>(r: Result<T, ControlPointError>, s: Option<T>) -> bool {
    match r {
        Ok(v) => s == Some(v),
        Err(_) => s is None,
    }
}

/// `r` agrees with the expected text `s`.
pub open spec fn agrees_text(r: Result<String, ControlPointError>, s: Option<Seq<char>>) -> bool {
    match r {
        Ok(v) => s == Some(v@),
        Err(_) => s is None,
    }
}

/// `r` is `Ok` exactly when `ok` holds.
pub open spec fn agrees_unit(r: Result<(), ControlPointError>, ok: bool) -> bool {
    r is Ok <==> ok
}

/// Text found under `names` (first that yields) in the response element of a reply.
pub open spec fn spec_text_field(reply: SoapCallResult, response: Seq<char>, names: Seq<Seq<char>>) -> Option<Seq<char>> {
    match spec_response(reply, response) {
        Some(e) => crate::xml::spec_child_text_any(e, names),
        None => None,
    }
}

/// The `u32` found under `names` in the response element of a reply.
pub open spec fn spec_u32_field(reply: SoapCallResult, response: Seq<char>, names: Seq<Seq<char>>) -> Option<u32> {
    match spec_text_field(reply, response, names) {
        Some(t) => match spec_parse_uint(t, u32::MAX as nat) {
            Some(v) => Some(v as u32),
            None => None,
        },
        None => None,
    }
}

/// Reads the text under `names` in the response element of a reply.
pub fn text_field(action: &str, call_result: &SoapCallResult, response: &str, names: &[&str]) -> (r: Result<String, ControlPointError>)
    ensures
        agrees_text(r, spec_text_field(*call_result, response@, crate::xml::strs_view(names@))),
{
    let e = response_element(action, call_result, response)?;
    crate::xml::extract_child_text_any(e, names)
}

/// Reads the `u32` under `names` in the response element of a reply.
pub fn u32_field(action: &str, call_result: &SoapCallResult, response: &str, names: &[&str]) -> (r: Result<u32, ControlPointError>)
    ensures
        agrees(r, spec_u32_field(*call_result, response@, crate::xml::strs_view(names@))),
{
    let t = text_field(action, call_result, response, names)?;
    let cs = str_chars(t.as_str());
    match parse_uint(cs.as_slice(), u32::MAX as u64) {
        Some(v) => Ok(v as u32),
        None => Err(ControlPointError::UpnpBadReturnValue(msg(response), t)),
    }
}

/// Decimal text of a number.
pub fn u64_text(v: u64) -> (r: String)
    ensures
        r@ == crate::text::dec(v as nat),
{
    let mut out: Vec<char> = Vec::new();
    crate::text::push_dec(&mut out, v);
    assert(out@ =~= crate::text::dec(v as nat));
    string_from_chars(out.as_slice())
}

/// A named argument holding a decimal number.
pub fn num_arg(name: &str, v: u64) -> (r: (String, String))
    ensures
        r.0@ == name@,
        r.1@ == crate::text::dec(v as nat),
{
    (msg(name), u64_text(v))
}

/// A named argument holding a text.
pub fn text_arg(name: &str, v: &str) -> (r: (String, String))
    ensures
        r.0@ == name@,
        r.1@ == v@,
{
    (msg(name), msg(v))
}

} // verus!

verus! {

/// Sends an action and checks that it succeeded.
pub fn call_unit<F: Fn(SoapRequest) -> SoapCallResult>(
    transport: &F,
    control_url: &String,
    service_type: &String,
    action: &str,
    args: Vec<(String, String)>,
) -> (r: Result<(), ControlPointError>)
    requires
        transport_total(*transport),
    ensures
        exists|reply: SoapCallResult|
            answered(*transport, request_view(control_url@, service_type@, action@, pairs_view(args@)), reply)
                && agrees_unit(r, spec_success(reply) is Some),
{
    let reply = invoke(transport, control_url, service_type, action, args);
    handle_action_response(action, &reply)
}

/// Sends an action and reads a text value of its response element.
pub fn call_text<F: Fn(SoapRequest) -> SoapCallResult>(
    transport: &F,
    control_url: &String,
    service_type: &String,
    action: &str,
    args: Vec<(String, String)>,
    response: &str,
    names: &[&str],
) -> (r: Result<String, ControlPointError>)
    requires
        transport_total(*transport),
    ensures
        exists|reply: SoapCallResult|
            answered(*transport, request_view(control_url@, service_type@, action@, pairs_view(args@)), reply)
                && agrees_text(r, spec_text_field(reply, response@, crate::xml::strs_view(names@))),
{
    let reply = invoke(transport, control_url, service_type, action, args);
    text_field(action, &reply, response, names)
}

/// Sends an action and reads a `u32` value of its response element.
pub fn call_u32<F: Fn(SoapRequest) -> SoapCallResult>(
    transport: &F,
    control_url: &String,
    service_type: &String,
    action: &str,
    args: Vec<(String, String)>,
    response: &str,
    names: &[&str],
) -> (r: Result<u32, ControlPointError>)
    requires
        transport_total(*transport),
    ensures
        exists|reply: SoapCallResult|
            answered(*transport, request_view(control_url@, service_type@, action@, pairs_view(args@)), reply)
                && agrees(r, spec_u32_field(reply, response@, crate::xml::strs_view(names@))),
{
    let reply = invoke(transport, control_url, service_type, action, args);
    u32_field(action, &reply, response, names)
}

/// An empty argument list.
pub fn no_args() -> (r: Vec<(String, String)>)
    ensures
        pairs_view(r@) == Seq::<(Seq<char>, Seq<char>)>::empty(),
{
    let r: Vec<(String, String)> = Vec::new();
    assert(pairs_view(r@) =~= Seq::<(Seq<char>, Seq<char>)>::empty());
    r
}

/// A one-argument list.
pub fn one_arg(a: (String, String)) -> (r: Vec<(String, String)>)
    ensures
        pairs_view(r@) == seq![(a.0@, a.1@)],
{
    let ghost av = (a.0@, a.1@);
    let r = vec![a];
    assert(pairs_view(r@) =~= seq![av]);
    r
}

} // verus!
