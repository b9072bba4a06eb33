//! What holds of the message codec as a whole: decoding undoes encoding, and
//! a message that was cut short is never mistaken for another one.
use crate::error::ErrorKind;
use crate::wire::{
    element_bytes, message_bytes, message_fits, name_field, name_fits, parsed_element,
    parsed_message, parsed_name, parsed_value, value_field, value_fits, ElementView,
};
use vstd::prelude::*;
use vstd::utf8::{
    decode_utf8_encode_utf8, encode_utf8, encode_utf8_decode_utf8, encode_utf8_valid_utf8,
};

verus! {

/// Reading a name off its own wire form, whatever follows it, gives the name
/// back and leaves what follows.
pub proof fn lemma_name_roundtrip(name: Seq<char>, rest: Seq<u8>)
    requires
        name_fits(name),
    ensures
        parsed_name(name_field(name) + rest) == Ok::<_, ErrorKind>((name, rest)),
{
    let s = name_field(name) + rest;
    let n = encode_utf8(name).len() as int;
    assert(s.subrange(1, 1 + n) =~= encode_utf8(name));
    assert(s.skip(1 + n) =~= rest);
    encode_utf8_valid_utf8(name);
    encode_utf8_decode_utf8(name);
}

/// Reading a value off its own wire form, whatever follows it, gives the
/// value back and leaves what follows.
pub proof fn lemma_value_roundtrip(value: Seq<u8>, rest: Seq<u8>)
    requires
        value_fits(value),
    ensures
        parsed_value(value_field(value) + rest) == Ok::<_, ErrorKind>((value, rest)),
{
    let s = value_field(value) + rest;
    let n = value.len() as int;
    assert(s.subrange(2, 2 + n) =~= value);
    assert(s.skip(2 + n) =~= rest);
}

/// Reading an element off its own wire form, whatever follows it, gives the
/// element back and leaves what follows.
pub proof fn lemma_element_roundtrip(e: ElementView, rest: Seq<u8>)
    requires
        e.fits(),
    ensures
        parsed_element(element_bytes(e) + rest) == Ok::<_, ErrorKind>((e, rest)),
{
    let s = element_bytes(e) + rest;
    match e {
        ElementView::SectionStart(name) => {
            assert(s.skip(1) =~= name_field(name) + rest);
            lemma_name_roundtrip(name, rest);
        },
        ElementView::SectionEnd => {
            assert(s.skip(1) =~= rest);
        },
        ElementView::KeyValue(name, value) => {
            assert(s.skip(1) =~= name_field(name) + (value_field(value) + rest));
            lemma_name_roundtrip(name, value_field(value) + rest);
            lemma_value_roundtrip(value, rest);
        },
        ElementView::ListStart(name) => {
            assert(s.skip(1) =~= name_field(name) + rest);
            lemma_name_roundtrip(name, rest);
        },
        ElementView::ListItem(value) => {
            assert(s.skip(1) =~= value_field(value) + rest);
            lemma_value_roundtrip(value, rest);
        },
        ElementView::ListEnd => {
            assert(s.skip(1) =~= rest);
        },
    }
}

/// Round trip: decoding the encoding of a message whose names and values are
/// within their size limits gives exactly that message. Nothing is
/// normalised: names and values come back as they went in, zero bytes and
/// bytes that are not text included.
pub proof fn theorem_decode_encode(m: Seq<ElementView>)
    requires
        message_fits(m),
    ensures
        parsed_message(message_bytes(m)) == Ok::<_, ErrorKind>(m),
    decreases m.len(),
{
    if m.len() == 0 {
        assert(m =~= Seq::<ElementView>::empty());
    } else {
        let tail = m.drop_first();
        assert(message_bytes(m) == element_bytes(m[0]) + message_bytes(tail));
        lemma_element_roundtrip(m[0], message_bytes(tail));
        theorem_decode_encode(tail);
        assert(seq![m[0]] + tail =~= m);
    }
}

/// A name that was read off the front of `s` fits its length byte, and `s`
/// is its wire form followed by what was left.
pub proof fn lemma_name_canonical(s: Seq<u8>)
    requires
        parsed_name(s) is Ok,
    ensures
        name_fits(parsed_name(s)->Ok_0.0),
        s == name_field(parsed_name(s)->Ok_0.0) + parsed_name(s)->Ok_0.1,
{
    let n = s[0] as int;
    let raw = s.subrange(1, 1 + n);
    decode_utf8_encode_utf8(raw);
}

/// A value that was read off the front of `s` fits its length field, and `s`
/// is its wire form followed by what was left.
pub proof fn lemma_value_canonical(s: Seq<u8>)
    requires
        parsed_value(s) is Ok,
    ensures
        value_fits(parsed_value(s)->Ok_0.0),
        s == value_field(parsed_value(s)->Ok_0.0) + parsed_value(s)->Ok_0.1,
{
    let value = parsed_value(s)->Ok_0.0;
    assert(s =~= value_field(value) + parsed_value(s)->Ok_0.1);
}

/// An element that was read off the front of `s` is within its size limits,
/// and `s` is its wire form followed by what was left.
pub proof fn lemma_element_canonical(s: Seq<u8>)
    requires
        parsed_element(s) is Ok,
    ensures
        parsed_element(s)->Ok_0.0.fits(),
        s == element_bytes(parsed_element(s)->Ok_0.0) + parsed_element(s)->Ok_0.1,
        parsed_element(s)->Ok_0.1.len() < s.len(),
{
    let e = parsed_element(s)->Ok_0.0;
    let rest = parsed_element(s)->Ok_0.1;
    let body = s.skip(1);
    assert(s =~= seq![s[0]] + body);
    match e {
        ElementView::SectionStart(name) => {
            lemma_name_canonical(body);
        },
        ElementView::SectionEnd => {},
        ElementView::KeyValue(name, value) => {
            lemma_name_canonical(body);
            lemma_value_canonical(parsed_name(body)->Ok_0.1);
            assert(s =~= element_bytes(e) + rest);
        },
        ElementView::ListStart(name) => {
            lemma_name_canonical(body);
        },
        ElementView::ListItem(value) => {
            lemma_value_canonical(body);
        },
        ElementView::ListEnd => {},
    }
}

/// The encoding is canonical: bytes that decode to a message are exactly the
/// encoding of that message, and the message is within the size limits. So no
/// two byte strings decode to the same message.
pub proof fn theorem_encode_decode(s: Seq<u8>)
    requires
        parsed_message(s) is Ok,
    ensures
        message_fits(parsed_message(s)->Ok_0),
        message_bytes(parsed_message(s)->Ok_0) == s,
    decreases s.len(),
{
    if s.len() > 0 {
        lemma_element_canonical(s);
        let rest = parsed_element(s)->Ok_0.1;
        theorem_encode_decode(rest);
        assert(parsed_message(s)->Ok_0.drop_first() =~= parsed_message(rest)->Ok_0);
    }
}

/// A name whose wire form was cut short is a structural error.
pub proof fn lemma_name_truncated(name: Seq<char>, n: int)
    requires
        name_fits(name),
        0 <= n < name_field(name).len(),
    ensures
        parsed_name(name_field(name).take(n)) == Err::<(Seq<char>, Seq<u8>), _>(
            ErrorKind::Protocol,
        ),
{
}

/// A value whose wire form was cut short is a structural error.
pub proof fn lemma_value_truncated(value: Seq<u8>, n: int)
    requires
        value_fits(value),
        0 <= n < value_field(value).len(),
    ensures
        parsed_value(value_field(value).take(n)) == Err::<(Seq<u8>, Seq<u8>), _>(
            ErrorKind::Protocol,
        ),
{
}

/// An element whose wire form was cut anywhere after its first byte and before
/// its last is a structural error.
pub proof fn lemma_element_truncated(e: ElementView, n: int)
    requires
        e.fits(),
        0 < n < element_bytes(e).len(),
    ensures
        parsed_element(element_bytes(e).take(n)) == Err::<(ElementView, Seq<u8>), _>(
            ErrorKind::Protocol,
        ),
{
    let s = element_bytes(e).take(n);
    match e {
        ElementView::SectionStart(name) => {
            lemma_name_truncated(name, n - 1);
        },
        ElementView::SectionEnd => {},
        ElementView::KeyValue(name, value) => {
            let nf = name_field(name);
            if n - 1 < nf.len() {
                lemma_name_truncated(name, n - 1);
            } else {
                let k = n - 1 - nf.len();
                assert(s.skip(1) =~= nf + value_field(value).take(k));
                lemma_name_roundtrip(name, value_field(value).take(k));
                lemma_value_truncated(value, k);
            }
        },
        ElementView::ListStart(name) => {
            lemma_name_truncated(name, n - 1);
        },
        ElementView::ListItem(value) => {
            lemma_value_truncated(value, n - 1);
        },
        ElementView::ListEnd => {},
    }
}

/// Decoding a proper prefix of an encoded message invents nothing. Either it
/// is a structural error, or the cut fell between two elements and the result
/// is exactly the elements before the cut.
pub proof fn theorem_prefix_decodes_to_prefix(m: Seq<ElementView>, n: int)
    requires
        message_fits(m),
        0 <= n < message_bytes(m).len(),
    ensures
        match parsed_message(message_bytes(m).take(n)) {
            Ok(d) => exists|k: int|
                0 <= k < m.len() && d == #[trigger] m.take(k) && message_bytes(m.take(k))
                    == message_bytes(m).take(n),
            Err(kind) => kind == ErrorKind::Protocol,
        },
    decreases m.len(),
{
    let p = message_bytes(m).take(n);
    if n == 0 {
        assert(m.take(0) =~= Seq::<ElementView>::empty());
    } else {
        let head = element_bytes(m[0]);
        let tail = m.drop_first();
        if n < head.len() {
            assert(p =~= head.take(n));
            lemma_element_truncated(m[0], n);
        } else {
            let j = n - head.len();
            assert(p =~= head + message_bytes(tail).take(j));
            lemma_element_roundtrip(m[0], message_bytes(tail).take(j));
            theorem_prefix_decodes_to_prefix(tail, j);
            if let Ok(d) = parsed_message(message_bytes(tail).take(j)) {
                let k = choose|k: int|
                    0 <= k < tail.len() && d == #[trigger] tail.take(k) && message_bytes(
                        tail.take(k),
                    ) == message_bytes(tail).take(j);
                assert(m.take(k + 1).drop_first() =~= d);
            }
        }
    }
}

/// Truncation safety: a proper prefix of an encoded message that does not end
/// where an element ends is rejected with a structural error.
pub proof fn theorem_truncated_message_rejected(m: Seq<ElementView>, n: int)
    requires
        message_fits(m),
        0 <= n < message_bytes(m).len(),
        forall|k: int| 0 <= k <= m.len() ==> message_bytes(#[trigger] m.take(k)).len() != n,
    ensures
        parsed_message(message_bytes(m).take(n)) == Err::<Seq<ElementView>, _>(
            ErrorKind::Protocol,
        ),
{
    theorem_prefix_decodes_to_prefix(m, n);
}

} // verus!
