//! A small element tree for SOAP payloads, with the lookups that the
//! clients perform on it and the XML escaping of text.
use crate::error::{msg, msg2, ControlPointError};
use crate::text::{seq_ends_with, ends_with_chars, str_chars, trim_chars, trim_seq, string_from_chars, string_push};
use vstd::prelude::*;

verus! {

/// An XML element: its local name (the parser keeps the namespace prefix
/// apart), its text content if it has any, and its child elements in
/// document order.
#[derive(Debug)]
pub struct XmlElement {
    pub name: String,
    pub text: Option<String>,
    pub children: Vec<XmlElement>,
}

/// The element type of `xmltree`, carried opaquely.
#[verifier::external_type_specification]
#[verifier::external_body]
pub struct ExXmltreeElement(xmltree::Element);

/// Name for the element tree that `xmltree::Element::parse` builds from a
/// document, `None` when the document is not well formed.
pub uninterp spec fn xml_document(text: Seq<char>) -> Option<XmlElement>;

/// Parses an XML document into an element tree.
#[verifier::external_body]
pub(crate) fn parse_xml_document(text: &str) -> (r: Option<XmlElement>)
    ensures
        r == xml_document(text@),
{
    match xmltree::Element::parse(text.as_bytes()) {
        Ok(root) => Some(element_from_tree(&root)),
        Err(_) => None,
    }
}

/// Converts an `xmltree` element (name, aggregated text, element children).
#[verifier::external_body]
fn element_from_tree(e: &xmltree::Element) -> XmlElement {
    let mut children = Vec::new();
    for node in &e.children {
        if let xmltree::XMLNode::Element(child) = node {
            children.push(element_from_tree(child));
        }
    }
    XmlElement { name: e.name.clone(), text: e.get_text().map(|t| t.into_owned()), children }
}

/// Index of the first child, from `i` on, whose name ends with `suffix`.
pub open spec fn find_suffix_from(ch: Seq<XmlElement>, suffix: Seq<char>, i: int) -> Option<int>
    decreases ch.len() - i,
{
    if i < 0 || i >= ch.len() {
        None
    } else if seq_ends_with(ch[i].name@, suffix) {
        Some(i)
    } else {
        find_suffix_from(ch, suffix, i + 1)
    }
}

/// The first child of `e` whose name ends with `suffix`.
pub open spec fn spec_find_child(e: XmlElement, suffix: Seq<char>) -> Option<XmlElement> {
    match find_suffix_from(e.children@, suffix, 0) {
        Some(i) => Some(e.children@[i]),
        None => None,
    }
}

/// Trimmed text of the first child whose name ends with `suffix`; `None` when
/// there is no such child or when it has no text.
pub open spec fn spec_child_text(e: XmlElement, suffix: Seq<char>) -> Option<Seq<char>> {
    match spec_find_child(e, suffix) {
        Some(c) => match c.text {
            Some(t) => Some(trim_seq(t@)),
            None => None,
        },
        None => None,
    }
}

/// Trimmed text (empty when it has none) of the first child whose name ends
/// with `suffix`, if there is such a child.
pub open spec fn spec_child_text_optional(e: XmlElement, suffix: Seq<char>) -> Option<Seq<char>> {
    match spec_find_child(e, suffix) {
        Some(c) => match c.text {
            Some(t) => Some(trim_seq(t@)),
            None => Some(Seq::empty()),
        },
        None => None,
    }
}

/// The text given by the first suffix, in order, that yields one.
pub open spec fn spec_child_text_any(e: XmlElement, suffixes: Seq<Seq<char>>) -> Option<Seq<char>>
    decreases suffixes.len(),
{
    if suffixes.len() == 0 {
        None
    } else {
        match spec_child_text(e, suffixes[0]) {
            Some(t) => Some(t),
            None => spec_child_text_any(e, suffixes.drop_first()),
        }
    }
}

/// Views of a list of string slices.
pub open spec fn strs_view(s: Seq<&str>) -> Seq<Seq<char>> {
    s.map_values(|x: &str| x@)
}

/// The first child of `parent` whose name ends with `suffix`.
pub fn find_child_with_suffix<'a>(parent: &'a XmlElement, suffix: &str) -> (r: Option<&'a XmlElement>)
    ensures
        match r {
            Some(c) => spec_find_child(*parent, suffix@) == Some(*c),
            None => spec_find_child(*parent, suffix@) is None,
        },
{
    let sfx = str_chars(suffix);
    let mut i: usize = 0;
    while i < parent.children.len()
        invariant
            sfx@ == suffix@,
            i <= parent.children@.len(),
            find_suffix_from(parent.children@, suffix@, 0) == find_suffix_from(
                parent.children@,
                suffix@,
                i as int,
            ),
        decreases parent.children@.len() - i,
    {
        let child = &parent.children[i];
        let name = str_chars(child.name.as_str());
        if ends_with_chars(name.as_slice(), sfx.as_slice()) {
            return Some(child);
        }
        i = i + 1;
    }
    None
}

/// Trimmed text of the first child whose name ends with `suffix`.
pub fn extract_child_text(parent: &XmlElement, suffix: &str) -> (r: Result<String, ControlPointError>)
    ensures
        r is Ok <==> spec_child_text(*parent, suffix@) is Some,
        r matches Ok(t) ==> spec_child_text(*parent, suffix@) == Some(t@),
        r matches Err(e) ==> e is UpnpMissingReturnValue,
{
    match find_child_with_suffix(parent, suffix) {
        None => Err(ControlPointError::UpnpMissingReturnValue(msg(suffix))),
        Some(child) => match &child.text {
            None => Err(ControlPointError::UpnpMissingReturnValue(msg2("element missing text: ", suffix))),
            Some(t) => {
                let cs = str_chars(t.as_str());
                let trimmed = trim_chars(cs.as_slice());
                Ok(string_from_chars(trimmed.as_slice()))
            },
        },
    }
}

/// Trimmed text of the first child whose name ends with `suffix`, or `None`
/// when there is no such child; a child without text gives an empty string.
pub fn extract_child_text_optional(parent: &XmlElement, suffix: &str) -> (r: Result<Option<String>, ControlPointError>)
    ensures
        r is Ok,
        r matches Ok(o) ==> match o {
            Some(t) => spec_child_text_optional(*parent, suffix@) == Some(t@),
            None => spec_child_text_optional(*parent, suffix@) is None,
        },
{
    match find_child_with_suffix(parent, suffix) {
        None => Ok(None),
        Some(child) => match &child.text {
            None => Ok(Some(String::new())),
            Some(t) => {
                let cs = str_chars(t.as_str());
                let trimmed = trim_chars(cs.as_slice());
                Ok(Some(string_from_chars(trimmed.as_slice())))
            },
        },
    }
}

/// Text of the first of `suffixes`, in order, that names a child with text.
pub fn extract_child_text_any(parent: &XmlElement, suffixes: &[&str]) -> (r: Result<String, ControlPointError>)
    ensures
        r is Ok <==> spec_child_text_any(*parent, strs_view(suffixes@)) is Some,
        r matches Ok(t) ==> spec_child_text_any(*parent, strs_view(suffixes@)) == Some(t@),
        r matches Err(e) ==> e is UpnpMissingReturnValue,
{
    let mut i: usize = 0;
    assert(strs_view(suffixes@).skip(0) =~= strs_view(suffixes@));
    while i < suffixes.len()
        invariant
            i <= suffixes@.len(),
            spec_child_text_any(*parent, strs_view(suffixes@)) == spec_child_text_any(
                *parent,
                strs_view(suffixes@).skip(i as int),
            ),
        decreases suffixes@.len() - i,
    {
        let ghost rest = strs_view(suffixes@).skip(i as int);
        proof {
            assert(rest[0] == suffixes@[i as int]@);
            assert(rest.drop_first() =~= strs_view(suffixes@).skip(i + 1));
        }
        match extract_child_text(parent, suffixes[i]) {
            Ok(t) => {
                return Ok(t);
            },
            Err(_) => {},
        }
        i = i + 1;
    }
    proof {
        assert(strs_view(suffixes@).skip(i as int).len() == 0);
    }
    Err(ControlPointError::UpnpMissingReturnValue(msg("expected element missing in response")))
}

/// `"0"` or `"1"` after trimming.
pub open spec fn spec_parse_bool(s: Seq<char>) -> Option<bool> {
    let t = trim_seq(s);
    if t == seq!['0'] {
        Some(false)
    } else if t == seq!['1'] {
        Some(true)
    } else {
        None
    }
}

/// Parses a UPnP boolean (`0` or `1`, surrounding whitespace ignored).
pub fn parse_bool(value: &str) -> (r: Result<bool, ControlPointError>)
    ensures
        r is Ok <==> spec_parse_bool(value@) is Some,
        r matches Ok(b) ==> spec_parse_bool(value@) == Some(b),
        r matches Err(e) ==> e is UpnpBadReturnValue,
{
    let cs = str_chars(value);
    let t = trim_chars(cs.as_slice());
    if t.len() == 1 && t[0] == '0' {
        assert(t@ =~= seq!['0']);
        Ok(false)
    } else if t.len() == 1 && t[0] == '1' {
        assert(t@ =~= seq!['1']);
        Ok(true)
    } else {
        proof {
            if t@ == seq!['0'] {
                assert(t@[0] == '0');
            }
            if t@ == seq!['1'] {
                assert(t@[0] == '1');
            }
        }
        Err(ControlPointError::UpnpBadReturnValue(msg("boolean"), msg(value)))
    }
}

/// Entity for the characters that XML text and attributes cannot hold as is.
pub open spec fn escape_char(c: char) -> Seq<char> {
    if c == '<' {
        seq!['&', 'l', 't', ';']
    } else if c == '>' {
        seq!['&', 'g', 't', ';']
    } else if c == '&' {
        seq!['&', 'a', 'm', 'p', ';']
    } else if c == '\'' {
        seq!['&', 'a', 'p', 'o', 's', ';']
    } else if c == '"' {
        seq!['&', 'q', 'u', 'o', 't', ';']
    } else {
        seq![c]
    }
}

/// XML escaping of a text: `<`, `>`, `&`, `'` and `"` replaced by entities.
pub open spec fn xml_escape(s: Seq<char>) -> Seq<char>
    decreases s.len(),
{
    if s.len() == 0 {
        Seq::empty()
    } else {
        xml_escape(s.drop_last()) + escape_char(s.last())
    }
}

/// Appends the escaping of one character.
fn push_escaped_char(out: &mut Vec<char>, c: char)
    ensures
        final(out)@ == old(out)@ + escape_char(c),
{
    let ghost start = out@;
    if c == '<' {
        out.push('&');
        out.push('l');
        out.push('t');
        out.push(';');
    } else if c == '>' {
        out.push('&');
        out.push('g');
        out.push('t');
        out.push(';');
    } else if c == '&' {
        out.push('&');
        out.push('a');
        out.push('m');
        out.push('p');
        out.push(';');
    } else if c == '\'' {
        out.push('&');
        out.push('a');
        out.push('p');
        out.push('o');
        out.push('s');
        out.push(';');
    } else if c == '"' {
        out.push('&');
        out.push('q');
        out.push('u');
        out.push('o');
        out.push('t');
        out.push(';');
    } else {
        out.push(c);
    }
    assert(out@ =~= start + escape_char(c));
}

/// Appends the XML escaping of `s`.
pub fn push_escaped(out: &mut Vec<char>, s: &str)
    ensures
        final(out)@ == old(out)@ + xml_escape(s@),
{
    let cs = str_chars(s);
    let ghost start = out@;
    let mut i: usize = 0;
    while i < cs.len()
        invariant
            cs@ == s@,
            i <= cs@.len(),
            out@ == start + xml_escape(cs@.subrange(0, i as int)),
        decreases cs@.len() - i,
    {
        push_escaped_char(out, cs[i]);
        proof {
            let p = cs@.subrange(0, i + 1);
            assert(p.drop_last() =~= cs@.subrange(0, i as int));
            assert(p.last() == cs@[i as int]);
            assert(out@ =~= start + xml_escape(p));
        }
        i = i + 1;
    }
    assert(cs@.subrange(0, cs@.len() as int) =~= s@);
}

/// Escaping of a protocolInfo attribute: `&`, `<`, `>` and `"` replaced by
/// entities, `'` kept.
pub open spec fn attr_escape(s: Seq<char>) -> Seq<char>
    decreases s.len(),
{
    if s.len() == 0 {
        Seq::empty()
    } else {
        attr_escape(s.drop_last()) + if s.last() == '\'' {
            seq!['\'']
        } else {
            escape_char(s.last())
        }
    }
}

/// Appends the protocolInfo escaping of `s`.
pub fn push_attr_escaped(out: &mut Vec<char>, s: &str)
    ensures
        final(out)@ == old(out)@ + attr_escape(s@),
{
    let cs = str_chars(s);
    let ghost start = out@;
    let mut i: usize = 0;
    while i < cs.len()
        invariant
            cs@ == s@,
            i <= cs@.len(),
            out@ == start + attr_escape(cs@.subrange(0, i as int)),
        decreases cs@.len() - i,
    {
        if cs[i] == '\'' {
            out.push('\'');
        } else {
            push_escaped_char(out, cs[i]);
        }
        proof {
            let p = cs@.subrange(0, i + 1);
            assert(p.drop_last() =~= cs@.subrange(0, i as int));
            assert(p.last() == cs@[i as int]);
            assert(out@ =~= start + attr_escape(p));
        }
        i = i + 1;
    }
    assert(cs@.subrange(0, cs@.len() as int) =~= s@);
}

/// XML escaping of a string.
pub fn escape(s: &str) -> (r: String)
    ensures
        r@ == xml_escape(s@),
{
    let mut out: Vec<char> = Vec::new();
    push_escaped(&mut out, s);
    assert(out@ =~= xml_escape(s@));
    string_from_chars(out.as_slice())
}

} // verus!
