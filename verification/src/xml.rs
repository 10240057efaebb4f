//! The rendering of one XML event, as the writer of the XML library renders it without
//! indentation, with the escaping of that library.

use vstd::prelude::*;
use quick_xml::events::attributes::Attribute;
use crate::text::{append_str, push_char};
use crate::token::spec_attributes;

verus! {

/// The reference that replaces a character the escaping reserves, or the character itself:
/// `<`, `>`, `&`, `'` and `"` become `&lt;`, `&gt;`, `&amp;`, `&apos;` and `&quot;`, a
/// carriage return `&#13;`, and in an attribute value also a line feed `&#10;` and a tab `&#9;`.
pub open spec fn spec_escaped_char(c: char, attribute: bool) -> Seq<char> {
    if c == '<' {
        "&lt;"@
    } else if c == '>' {
        "&gt;"@
    } else if c == '&' {
        "&amp;"@
    } else if c == '\'' {
        "&apos;"@
    } else if c == '"' {
        "&quot;"@
    } else if c == '\r' {
        "&#13;"@
    } else if attribute && c == '\n' {
        "&#10;"@
    } else if attribute && c == '\t' {
        "&#9;"@
    } else {
        seq![c]
    }
}

/// A text with each character replaced by its escaped form, one after the other.
pub open spec fn spec_escape(text: Seq<char>, attribute: bool) -> Seq<char>
    decreases text.len(),
{
    if text.len() == 0 {
        Seq::empty()
    } else {
        spec_escape(text.drop_last(), attribute) + spec_escaped_char(text.last(), attribute)
    }
}

/// A text with the characters that XML content reserves replaced by their references,
/// as `quick_xml::escape::escape` computes it.
pub open spec fn spec_escape_text(text: Seq<char>) -> Seq<char> {
    spec_escape(text, false)
}

/// An attribute value with the characters that an attribute reserves replaced by their
/// references, as `quick_xml`'s attribute escaping computes it.
pub open spec fn spec_escape_attribute(value: Seq<char>) -> Seq<char> {
    spec_escape(value, true)
}

/// Whether a character is left as it is by the escaping of content and of attribute values.
pub open spec fn spec_plain_char(c: char) -> bool {
    c != '<' && c != '>' && c != '&' && c != '\'' && c != '"' && c != '\r' && c != '\n' && c != '\t'
}

/// A text none of whose characters the escaping reserves is written as it is, in content and
/// in attribute values alike.
pub proof fn lemma_escape_plain(text: Seq<char>, attribute: bool)
    requires
        forall|i: int| 0 <= i < text.len() ==> spec_plain_char(#[trigger] text[i]),
    ensures
        spec_escape(text, attribute) == text,
    decreases text.len(),
{
    if text.len() > 0 {
        assert(spec_plain_char(text[text.len() - 1]));
        lemma_escape_plain(text.drop_last(), attribute);
        assert(text.drop_last().push(text.last()) =~= text);
    }
}

/// The attributes of a start tag as written: each one a space, its key, `="`, its escaped
/// value and `"`.
pub open spec fn spec_attribute_text(attributes: Seq<(Seq<char>, Seq<char>)>) -> Seq<char>
    decreases attributes.len(),
{
    if attributes.len() == 0 {
        Seq::empty()
    } else {
        spec_attribute_text(attributes.drop_last()) + seq![' '] + attributes.last().0 + seq!['=', '"']
            + spec_escape_attribute(attributes.last().1) + seq!['"']
    }
}

/// A start tag as written.
pub open spec fn spec_start_tag(name: Seq<char>, attributes: Seq<(Seq<char>, Seq<char>)>) -> Seq<char> {
    seq!['<'] + name + spec_attribute_text(attributes) + seq!['>']
}

/// An end tag as written.
pub open spec fn spec_end_tag(name: Seq<char>) -> Seq<char> {
    seq!['<', '/'] + name + seq!['>']
}

/// A text escaped for the content of an element.
///
/// Trusted: `quick_xml::escape::escape`, which replaces each reserved character by its
/// reference and leaves every other character as it is.
#[verifier::external_body]
fn escape_text(text: &str) -> (r: String)
    ensures
        r@ == spec_escape_text(text@),
{
    quick_xml::escape::escape(text).into_owned()
}

/// A value escaped for an attribute.
///
/// Trusted: the conversion of a key and a value into a `quick_xml::events::attributes::Attribute`,
/// which escapes the value with the attribute escaping of the library: each reserved character
/// by its reference, every other character as it is.
#[verifier::external_body]
fn escape_attribute_value(value: &str) -> (r: String)
    ensures
        r@ == spec_escape_attribute(value@),
{
    Attribute::from(("key", value)).value.into_owned()
}

/// The start tag of an element as the writer writes a start event without indentation:
/// `<`, the name, each attribute as a space, its key, `="`, its escaped value and `"`, then `>`.
pub fn start_tag(name: &str, attributes: &Vec<(String, String)>) -> (r: String)
    ensures
        r@ == spec_start_tag(name@, spec_attributes(attributes@)),
{
    let mut r = String::new();
    push_char(&mut r, '<');
    append_str(&mut r, name);
    let ghost head = r@;
    let mut i: usize = 0;
    proof {
        assert(spec_attributes(attributes@).take(0) =~= Seq::<(Seq<char>, Seq<char>)>::empty());
    }
    while i < attributes.len()
        invariant
            i <= attributes@.len(),
            head == seq!['<'] + name@,
            r@ == head + spec_attribute_text(spec_attributes(attributes@).take(i as int)),
        decreases attributes@.len() - i,
    {
        let ghost all = spec_attributes(attributes@);
        proof {
            assert(all.take(i + 1).drop_last() =~= all.take(i as int));
            assert(all.take(i + 1).last() == (attributes@[i as int].0@, attributes@[i as int].1@));
        }
        push_char(&mut r, ' ');
        append_str(&mut r, attributes[i].0.as_str());
        push_char(&mut r, '=');
        push_char(&mut r, '"');
        let value = escape_attribute_value(attributes[i].1.as_str());
        append_str(&mut r, value.as_str());
        push_char(&mut r, '"');
        proof {
            assert(r@ =~= head + spec_attribute_text(all.take(i + 1)));
        }
        i = i + 1;
    }
    proof {
        assert(spec_attributes(attributes@).take(i as int) =~= spec_attributes(attributes@));
    }
    push_char(&mut r, '>');
    assert(r@ =~= spec_start_tag(name@, spec_attributes(attributes@)));
    r
}

/// The text of an element as the writer writes a text event: the text, escaped.
pub fn text_event(text: &str) -> (r: String)
    ensures
        r@ == spec_escape_text(text@),
{
    escape_text(text)
}

/// The end tag of an element as the writer writes an end event without indentation.
pub fn end_tag(name: &str) -> (r: String)
    ensures
        r@ == spec_end_tag(name@),
{
    let mut r = String::new();
    push_char(&mut r, '<');
    push_char(&mut r, '/');
    append_str(&mut r, name);
    push_char(&mut r, '>');
    assert(r@ =~= spec_end_tag(name@));
    r
}

} // verus!
