//! Message codec: hierarchical sections, lists and key/value pairs as a flat
//! sequence of tagged elements.
//!
//! Every element starts with a one-byte tag. A name follows as a one-byte
//! length and that many bytes of UTF-8 text; a value follows as a two-byte
//! big-endian length and that many raw bytes.
//!
//! | tag | element      | fields      |
//! |-----|--------------|-------------|
//! | 1   | SectionStart | name        |
//! | 2   | SectionEnd   |             |
//! | 3   | KeyValue     | name, value |
//! | 4   | ListStart    | name        |
//! | 5   | ListItem     | value       |
//! | 6   | ListEnd      |             |
use crate::error::{Error, ErrorKind};
use std::string::FromUtf8Error;
use vstd::prelude::*;
use vstd::slice::{slice_subrange, slice_to_vec};
use vstd::utf8::{decode_utf8, encode_utf8, valid_utf8};

verus! {

/// Longest name, in bytes of UTF-8, that fits its one-byte length.
pub const MAX_NAME_LEN: usize = 255;

/// Longest value, in bytes, that fits its two-byte length.
pub const MAX_VALUE_LEN: usize = 65535;

/// A single message element.
#[derive(Debug, Eq)]
pub enum Element {
    /// Begin a named section.
    SectionStart(String),
    /// End the most recently opened section.
    SectionEnd,
    /// A key/value pair.
    KeyValue(String, Vec<u8>),
    /// Begin a named list.
    ListStart(String),
    /// A list item value.
    ListItem(Vec<u8>),
    /// End the most recently opened list.
    ListEnd,
}

/// The mathematical value of an [`Element`]: names as character sequences,
/// values as byte sequences.
pub enum ElementView {
    SectionStart(Seq<char>),
    SectionEnd,
    KeyValue(Seq<char>, Seq<u8>),
    ListStart(Seq<char>),
    ListItem(Seq<u8>),
    ListEnd,
}

impl View for Element {
    type V = ElementView;

    open spec fn view(&self) -> ElementView {
        match *self {
            Element::SectionStart(name) => ElementView::SectionStart(name@),
            Element::SectionEnd => ElementView::SectionEnd,
            Element::KeyValue(name, value) => ElementView::KeyValue(name@, value@),
            Element::ListStart(name) => ElementView::ListStart(name@),
            Element::ListItem(value) => ElementView::ListItem(value@),
            Element::ListEnd => ElementView::ListEnd,
        }
    }
}

/// The elements of a sequence, each by its mathematical value.
pub open spec fn views(elements: Seq<Element>) -> Seq<ElementView> {
    elements.map_values(|e: Element| e@)
}

/// A name can be encoded: its UTF-8 form has at most 255 bytes.
pub open spec fn name_fits(name: Seq<char>) -> bool {
    encode_utf8(name).len() <= 255
}

/// A value can be encoded: it has at most 65535 bytes.
pub open spec fn value_fits(value: Seq<u8>) -> bool {
    value.len() <= 65535
}

impl ElementView {
    /// Every field of the element is within the size limit of its kind.
    pub open spec fn fits(self) -> bool {
        match self {
            ElementView::SectionStart(name) => name_fits(name),
            ElementView::SectionEnd => true,
            ElementView::KeyValue(name, value) => name_fits(name) && value_fits(value),
            ElementView::ListStart(name) => name_fits(name),
            ElementView::ListItem(value) => value_fits(value),
            ElementView::ListEnd => true,
        }
    }
}

/// Every element of the sequence is within its size limits.
pub open spec fn message_fits(m: Seq<ElementView>) -> bool {
    forall|i: int| 0 <= i < m.len() ==> (#[trigger] m[i]).fits()
}

/// Wire form of a name: one length byte, then the text as UTF-8.
pub open spec fn name_field(name: Seq<char>) -> Seq<u8> {
    seq![encode_utf8(name).len() as u8] + encode_utf8(name)
}

/// Wire form of a value: the length as two bytes, high byte first, then the
/// bytes themselves.
pub open spec fn value_field(value: Seq<u8>) -> Seq<u8> {
    seq![(value.len() / 256) as u8, (value.len() % 256) as u8] + value
}

/// Wire form of one element: its tag, then its fields.
pub open spec fn element_bytes(e: ElementView) -> Seq<u8> {
    match e {
        ElementView::SectionStart(name) => seq![1u8] + name_field(name),
        ElementView::SectionEnd => seq![2u8],
        ElementView::KeyValue(name, value) => seq![3u8] + name_field(name) + value_field(value),
        ElementView::ListStart(name) => seq![4u8] + name_field(name),
        ElementView::ListItem(value) => seq![5u8] + value_field(value),
        ElementView::ListEnd => seq![6u8],
    }
}

/// Wire form of a message: the wire forms of its elements, in order.
pub open spec fn message_bytes(m: Seq<ElementView>) -> Seq<u8>
    decreases m.len(),
{
    if m.len() == 0 {
        Seq::empty()
    } else {
        element_bytes(m[0]) + message_bytes(m.drop_first())
    }
}

/// What reading a name off the front of `s` gives: the name and the bytes
/// after it, or the kind of error.
pub open spec fn parsed_name(s: Seq<u8>) -> Result<(Seq<char>, Seq<u8>), ErrorKind> {
    if s.len() == 0 {
        Err(ErrorKind::Protocol)
    } else if s.len() - 1 < s[0] as int {
        Err(ErrorKind::Protocol)
    } else if !valid_utf8(s.subrange(1, 1 + s[0] as int)) {
        Err(ErrorKind::Utf8)
    } else {
        Ok((decode_utf8(s.subrange(1, 1 + s[0] as int)), s.skip(1 + s[0] as int)))
    }
}

/// The number that two bytes denote, high byte first.
pub open spec fn be16(hi: u8, lo: u8) -> int {
    hi as int * 256 + lo as int
}

/// What reading a value off the front of `s` gives: the value and the bytes
/// after it, or the kind of error.
pub open spec fn parsed_value(s: Seq<u8>) -> Result<(Seq<u8>, Seq<u8>), ErrorKind> {
    if s.len() < 2 {
        Err(ErrorKind::Protocol)
    } else if s.len() - 2 < be16(s[0], s[1]) {
        Err(ErrorKind::Protocol)
    } else {
        Ok((s.subrange(2, 2 + be16(s[0], s[1])), s.skip(2 + be16(s[0], s[1]))))
    }
}

/// What reading one element off the front of `s` gives: the element and the
/// bytes after it, or the kind of error.
pub open spec fn parsed_element(s: Seq<u8>) -> Result<(ElementView, Seq<u8>), ErrorKind> {
    if s.len() == 0 {
        Err(ErrorKind::Protocol)
    } else if s[0] == 1 {
        match parsed_name(s.skip(1)) {
            Ok((name, rest)) => Ok((ElementView::SectionStart(name), rest)),
            Err(k) => Err(k),
        }
    } else if s[0] == 2 {
        Ok((ElementView::SectionEnd, s.skip(1)))
    } else if s[0] == 3 {
        match parsed_name(s.skip(1)) {
            Ok((name, after_name)) => match parsed_value(after_name) {
                Ok((value, rest)) => Ok((ElementView::KeyValue(name, value), rest)),
                Err(k) => Err(k),
            },
            Err(k) => Err(k),
        }
    } else if s[0] == 4 {
        match parsed_name(s.skip(1)) {
            Ok((name, rest)) => Ok((ElementView::ListStart(name), rest)),
            Err(k) => Err(k),
        }
    } else if s[0] == 5 {
        match parsed_value(s.skip(1)) {
            Ok((value, rest)) => Ok((ElementView::ListItem(value), rest)),
            Err(k) => Err(k),
        }
    } else if s[0] == 6 {
        Ok((ElementView::ListEnd, s.skip(1)))
    } else {
        Err(ErrorKind::Protocol)
    }
}

/// What decoding `s` as a message gives: its elements, read one after
/// another until no byte is left, or the kind of the first error.
pub open spec fn parsed_message(s: Seq<u8>) -> Result<Seq<ElementView>, ErrorKind>
    decreases s.len(),
{
    if s.len() == 0 {
        Ok(Seq::empty())
    } else {
        match parsed_element(s) {
            Err(k) => Err(k),
            Ok((e, rest)) => match parsed_message(rest) {
                Err(k) => Err(k),
                Ok(tail) => Ok(seq![e] + tail),
            },
        }
    }
}

/// A full message: a flat, ordered sequence of elements.
///
/// Sections and lists are not checked for balance: any sequence of elements
/// is a message.
#[derive(Debug, Eq)]
pub struct Message {
    elements: Vec<Element>,
}

impl View for Message {
    type V = Seq<ElementView>;

    closed spec fn view(&self) -> Seq<ElementView> {
        views(self.elements@)
    }
}

/// Calls `String::from_utf8`. Taken on trust from its documentation, not
/// proved: it succeeds exactly when the bytes are well-formed UTF-8, and the
/// string then holds the characters that the bytes encode.
#[verifier::external_body]
pub(crate) fn string_from_utf8(bytes: Vec<u8>) -> (r: Result<String, FromUtf8Error>)
    ensures
        r is Ok <==> valid_utf8(bytes@),
        r matches Ok(s) ==> s@ == decode_utf8(bytes@),
{
    String::from_utf8(bytes)
}

/// Appends the wire form of `name`, or leaves `out` alone when the name is
/// too long.
pub(crate) fn encode_name(out: &mut Vec<u8>, name: &str) -> (r: Result<(), Error>)
    ensures
        match r {
            Ok(()) => name_fits(name@) && final(out)@ == old(out)@ + name_field(name@),
            Err(e) => !name_fits(name@) && e.kind() == ErrorKind::TooLong && final(out)@ == old(
                out,
            )@,
        },
{
    let bytes = name.as_bytes();
    if bytes.len() > MAX_NAME_LEN {
        return Err(Error::TooLong("element name"));
    }
    out.push(bytes.len() as u8);
    out.extend_from_slice(bytes);
    Ok(())
}

/// Appends the wire form of `value`, or leaves `out` alone when the value is
/// too long.
fn encode_value(out: &mut Vec<u8>, value: &[u8]) -> (r: Result<(), Error>)
    ensures
        match r {
            Ok(()) => value_fits(value@) && final(out)@ == old(out)@ + value_field(value@),
            Err(e) => !value_fits(value@) && e.kind() == ErrorKind::TooLong && final(out)@ == old(
                out,
            )@,
        },
{
    let len = value.len();
    if len > MAX_VALUE_LEN {
        return Err(Error::TooLong("element value"));
    }
    out.push((len / 256) as u8);
    out.push((len % 256) as u8);
    out.extend_from_slice(value);
    Ok(())
}

/// Reads one byte off the front of `input`.
pub(crate) fn decode_u8(input: &[u8]) -> (r: Result<(u8, &[u8]), Error>)
    ensures
        match r {
            Ok((b, rest)) => input@.len() > 0 && b == input@[0] && rest@ == input@.skip(1),
            Err(e) => input@.len() == 0 && e.kind() == ErrorKind::Protocol,
        },
{
    if input.len() == 0 {
        return Err(Error::Protocol("unexpected EOF reading u8"));
    }
    Ok((input[0], slice_subrange(input, 1, input.len())))
}

/// Reads a two-byte number, high byte first, off the front of `input`.
fn decode_be_u16(input: &[u8]) -> (r: Result<(u16, &[u8]), Error>)
    ensures
        match r {
            Ok((v, rest)) => input@.len() >= 2 && v == be16(input@[0], input@[1]) && rest@
                == input@.skip(2),
            Err(e) => input@.len() < 2 && e.kind() == ErrorKind::Protocol,
        },
{
    if input.len() < 2 {
        return Err(Error::Protocol("unexpected EOF reading u16"));
    }
    let v: u16 = (input[0] as u16) * 256 + (input[1] as u16);
    Ok((v, slice_subrange(input, 2, input.len())))
}

/// Splits `input` after its first `n` bytes.
fn take(input: &[u8], n: usize) -> (r: Result<(&[u8], &[u8]), Error>)
    ensures
        match r {
            Ok((head, rest)) => input@.len() >= n && head@ == input@.take(n as int) && rest@
                == input@.skip(n as int),
            Err(e) => input@.len() < n && e.kind() == ErrorKind::Protocol,
        },
{
    if input.len() < n {
        return Err(Error::Protocol("unexpected EOF taking slice"));
    }
    Ok((slice_subrange(input, 0, n), slice_subrange(input, n, input.len())))
}

/// Reads a name off the front of `input`.
pub(crate) fn decode_name(input: &[u8]) -> (r: Result<(String, &[u8]), Error>)
    ensures
        match parsed_name(input@) {
            Ok((name, after)) => r matches Ok((s, rest)) && s@ == name && rest@ == after,
            Err(k) => r matches Err(e) && e.kind() == k,
        },
{
    let (len, input1) = match decode_u8(input) {
        Ok(p) => p,
        Err(e) => { return Err(e); },
    };
    let (name_bytes, rest) = match take(input1, len as usize) {
        Ok(p) => p,
        Err(e) => { return Err(e); },
    };
    assert(name_bytes@ =~= input@.subrange(1, 1 + input@[0] as int));
    match string_from_utf8(slice_to_vec(name_bytes)) {
        Ok(s) => Ok((s, rest)),
        Err(e) => Err(Error::from(e)),
    }
}

/// Reads a value off the front of `input`.
fn decode_value(input: &[u8]) -> (r: Result<(Vec<u8>, &[u8]), Error>)
    ensures
        match parsed_value(input@) {
            Ok((value, after)) => r matches Ok((v, rest)) && v@ == value && rest@ == after,
            Err(k) => r matches Err(e) && e.kind() == k,
        },
{
    let (len, input2) = match decode_be_u16(input) {
        Ok(p) => p,
        Err(e) => { return Err(e); },
    };
    let (value, rest) = match take(input2, len as usize) {
        Ok(p) => p,
        Err(e) => { return Err(e); },
    };
    Ok((slice_to_vec(value), rest))
}

/// Reads one element off the front of `input`.
fn decode_element(input: &[u8]) -> (r: Result<(Element, &[u8]), Error>)
    ensures
        match parsed_element(input@) {
            Ok((element, after)) => r matches Ok((el, rest)) && el@ == element && rest@ == after,
            Err(k) => r matches Err(e) && e.kind() == k,
        },
{
    let (tag, input) = match decode_u8(input) {
        Ok(p) => p,
        Err(e) => { return Err(e); },
    };
    match tag {
        1 => {
            match decode_name(input) {
                Ok((name, rest)) => Ok((Element::SectionStart(name), rest)),
                Err(e) => Err(e),
            }
        },
        2 => Ok((Element::SectionEnd, input)),
        3 => {
            let (name, input) = match decode_name(input) {
                Ok(p) => p,
                Err(e) => { return Err(e); },
            };
            match decode_value(input) {
                Ok((value, rest)) => Ok((Element::KeyValue(name, value), rest)),
                Err(e) => Err(e),
            }
        },
        4 => {
            match decode_name(input) {
                Ok((name, rest)) => Ok((Element::ListStart(name), rest)),
                Err(e) => Err(e),
            }
        },
        5 => {
            match decode_value(input) {
                Ok((value, rest)) => Ok((Element::ListItem(value), rest)),
                Err(e) => Err(e),
            }
        },
        6 => Ok((Element::ListEnd, input)),
        _ => Err(Error::Protocol("unknown message element tag")),
    }
}

impl Element {
    /// Appends the wire form of this element, or leaves `out` alone when a
    /// field is too long.
    fn encode_into(&self, out: &mut Vec<u8>) -> (r: Result<(), Error>)
        ensures
            match r {
                Ok(()) => self@.fits() && final(out)@ == old(out)@ + element_bytes(self@),
                Err(e) => !self@.fits() && e.kind() == ErrorKind::TooLong && final(out)@ == old(
                    out,
                )@,
            },
    {
        let start = out.len();
        let r = match self {
            Element::SectionStart(name) => {
                out.push(1);
                encode_name(out, name.as_str())
            },
            Element::SectionEnd => {
                out.push(2);
                Ok(())
            },
            Element::KeyValue(name, val) => {
                out.push(3);
                match encode_name(out, name.as_str()) {
                    Ok(()) => encode_value(out, val.as_slice()),
                    Err(e) => Err(e),
                }
            },
            Element::ListStart(name) => {
                out.push(4);
                encode_name(out, name.as_str())
            },
            Element::ListItem(val) => {
                out.push(5);
                encode_value(out, val.as_slice())
            },
            Element::ListEnd => {
                out.push(6);
                Ok(())
            },
        };
        if r.is_err() {
            out.truncate(start);
        }
        r
    }
}

/// Encoding a message with one more element at its end appends that
/// element's wire form.
pub proof fn lemma_message_bytes_push(m: Seq<ElementView>, e: ElementView)
    ensures
        message_bytes(m.push(e)) == message_bytes(m) + element_bytes(e),
    decreases m.len(),
{
    if m.len() == 0 {
        assert(message_bytes(m.push(e).drop_first()) =~= Seq::<u8>::empty());
    } else {
        lemma_message_bytes_push(m.drop_first(), e);
        assert(m.push(e).drop_first() =~= m.drop_first().push(e));
    }
}

impl Message {
    /// Create an empty message.
    pub fn new() -> (r: Self)
        ensures
            r@ == Seq::<ElementView>::empty(),
    {
        Self { elements: Vec::new() }
    }

    /// Borrow inner elements.
    pub fn elements(&self) -> (r: &[Element])
        ensures
            views(r@) == self@,
    {
        self.elements.as_slice()
    }

    /// Push a raw element.
    pub fn push(&mut self, el: Element)
        ensures
            final(self)@ == old(self)@.push(el@),
    {
        self.elements.push(el);
    }

    /// Convenience: add key/value where the value is a string.
    pub fn kv_str(self, name: &str, value: &str) -> (r: Self)
        ensures
            r@ == self@.push(ElementView::KeyValue(name@, encode_utf8(value@))),
    {
        let mut m = self;
        m.push(Element::KeyValue(name.to_owned(), slice_to_vec(value.as_bytes())));
        m
    }

    /// Convenience: add key/value where the value is raw bytes.
    pub fn kv_bytes(self, name: &str, value: &[u8]) -> (r: Self)
        ensures
            r@ == self@.push(ElementView::KeyValue(name@, value@)),
    {
        let mut m = self;
        m.push(Element::KeyValue(name.to_owned(), slice_to_vec(value)));
        m
    }

    /// Begin a section.
    pub fn section_start(self, name: &str) -> (r: Self)
        ensures
            r@ == self@.push(ElementView::SectionStart(name@)),
    {
        let mut m = self;
        m.push(Element::SectionStart(name.to_owned()));
        m
    }

    /// End a section.
    pub fn section_end(self) -> (r: Self)
        ensures
            r@ == self@.push(ElementView::SectionEnd),
    {
        let mut m = self;
        m.push(Element::SectionEnd);
        m
    }

    /// Begin a list.
    pub fn list_start(self, name: &str) -> (r: Self)
        ensures
            r@ == self@.push(ElementView::ListStart(name@)),
    {
        let mut m = self;
        m.push(Element::ListStart(name.to_owned()));
        m
    }

    /// Add a list item (string value convenience).
    pub fn list_item_str(self, value: &str) -> (r: Self)
        ensures
            r@ == self@.push(ElementView::ListItem(encode_utf8(value@))),
    {
        let mut m = self;
        m.push(Element::ListItem(slice_to_vec(value.as_bytes())));
        m
    }

    /// Add a list item (raw bytes).
    pub fn list_item_bytes(self, value: &[u8]) -> (r: Self)
        ensures
            r@ == self@.push(ElementView::ListItem(value@)),
    {
        let mut m = self;
        m.push(Element::ListItem(slice_to_vec(value)));
        m
    }

    /// End a list.
    pub fn list_end(self) -> (r: Self)
        ensures
            r@ == self@.push(ElementView::ListEnd),
    {
        let mut m = self;
        m.push(Element::ListEnd);
        m
    }

    /// Encode this message into bytes.
    ///
    /// Fails, with nothing produced, exactly when some name or value is over
    /// its size limit.
    pub fn encode(&self) -> (r: Result<Vec<u8>, Error>)
        ensures
            match r {
                Ok(bytes) => message_fits(self@) && bytes@ == message_bytes(self@),
                Err(e) => !message_fits(self@) && e.kind() == ErrorKind::TooLong,
            },
    {
        let mut out: Vec<u8> = Vec::new();
        let mut i: usize = 0;
        while i < self.elements.len()
            invariant
                i <= self.elements.len(),
                message_fits(self@.take(i as int)),
                out@ == message_bytes(self@.take(i as int)),
            decreases self.elements.len() - i,
        {
            match self.elements[i].encode_into(&mut out) {
                Ok(()) => {},
                Err(e) => {
                    return Err(e);
                },
            }
            proof {
                lemma_message_bytes_push(self@.take(i as int), self@[i as int]);
                assert(self@.take(i as int + 1) =~= self@.take(i as int).push(self@[i as int]));
            }
            i += 1;
        }
        assert(self@.take(i as int) =~= self@);
        Ok(out)
    }

    /// Decode a message from bytes.
    ///
    /// Elements are read one after another until no byte is left. The result
    /// is the first error met, if any: a tag outside 1 to 6, a field that runs
    /// past the end of the input, or a name that is not UTF-8.
    pub fn decode(bytes: &[u8]) -> (r: Result<Self, Error>)
        ensures
            match parsed_message(bytes@) {
                Ok(m) => r matches Ok(d) && d@ == m,
                Err(k) => r matches Err(e) && e.kind() == k,
            },
    {
        let mut elements: Vec<Element> = Vec::new();
        let mut left = bytes;
        while left.len() > 0
            invariant
                parsed_message(bytes@) == match parsed_message(left@) {
                    Ok(tail) => Ok::<Seq<ElementView>, ErrorKind>(views(elements@) + tail),
                    Err(k) => Err(k),
                },
            decreases left@.len(),
        {
            let (el, rest) = match decode_element(left) {
                Ok(p) => p,
                Err(e) => {
                    return Err(e);
                },
            };
            proof {
                if let Ok(t) = parsed_message(rest@) {
                    assert(views(elements@.push(el)) + t =~= views(elements@) + (seq![el@] + t));
                }
            }
            elements.push(el);
            left = rest;
        }
        Ok(Self { elements })
    }
}

impl Clone for Element {
    fn clone(&self) -> (r: Self)
        ensures
            r@ == self@,
    {
        match self {
            Element::SectionStart(name) => Element::SectionStart(name.clone()),
            Element::SectionEnd => Element::SectionEnd,
            Element::KeyValue(name, value) => Element::KeyValue(
                name.clone(),
                slice_to_vec(value.as_slice()),
            ),
            Element::ListStart(name) => Element::ListStart(name.clone()),
            Element::ListItem(value) => Element::ListItem(slice_to_vec(value.as_slice())),
            Element::ListEnd => Element::ListEnd,
        }
    }
}

impl Clone for Message {
    fn clone(&self) -> (r: Self)
        ensures
            r@ == self@,
    {
        let mut elements: Vec<Element> = Vec::with_capacity(self.elements.len());
        let mut i: usize = 0;
        while i < self.elements.len()
            invariant
                i <= self.elements.len(),
                views(elements@) == self@.take(i as int),
            decreases self.elements.len() - i,
        {
            elements.push(self.elements[i].clone());
            assert(self@.take(i as int + 1) =~= self@.take(i as int).push(self@[i as int]));
            i += 1;
        }
        Message { elements }
    }
}

impl Default for Message {
    fn default() -> (r: Self)
        ensures
            r@ == Seq::<ElementView>::empty(),
    {
        Message::new()
    }
}

} // verus!
