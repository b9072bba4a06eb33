//! Messages as text for people to read: one element per line, values shown
//! as text where they are text and in hexadecimal where they are not.
use crate::wire::{string_from_utf8, views, Element, ElementView, Message};
use vstd::prelude::*;
use vstd::slice::slice_to_vec;
use vstd::string::StringExecFns;
use vstd::utf8::{decode_utf8, valid_utf8};

verus! {

/// The hexadecimal digit for a number below sixteen, in lower case.
pub open spec fn hex_digit(n: int) -> Seq<char> {
    if n == 0 {
        "0"@
    } else if n == 1 {
        "1"@
    } else if n == 2 {
        "2"@
    } else if n == 3 {
        "3"@
    } else if n == 4 {
        "4"@
    } else if n == 5 {
        "5"@
    } else if n == 6 {
        "6"@
    } else if n == 7 {
        "7"@
    } else if n == 8 {
        "8"@
    } else if n == 9 {
        "9"@
    } else if n == 10 {
        "a"@
    } else if n == 11 {
        "b"@
    } else if n == 12 {
        "c"@
    } else if n == 13 {
        "d"@
    } else if n == 14 {
        "e"@
    } else {
        "f"@
    }
}

/// Bytes in hexadecimal: two digits for each byte, high digit first.
pub open spec fn hex_text(bytes: Seq<u8>) -> Seq<char>
    decreases bytes.len(),
{
    if bytes.len() == 0 {
        Seq::empty()
    } else {
        hex_text(bytes.drop_last()) + hex_digit(bytes.last() as int / 16) + hex_digit(
            bytes.last() as int % 16,
        )
    }
}

/// A value as shown to people: its text where it is UTF-8, and `0x` with its
/// bytes in hexadecimal where it is not.
pub open spec fn value_text(value: Seq<u8>) -> Seq<char> {
    if valid_utf8(value) {
        decode_utf8(value)
    } else {
        "0x"@ + hex_text(value)
    }
}

/// The line that shows one element.
pub open spec fn element_text(e: ElementView) -> Seq<char> {
    match e {
        ElementView::SectionStart(name) => "<section "@ + name + ">\n"@,
        ElementView::SectionEnd => "</section>\n"@,
        ElementView::KeyValue(name, value) => name + " = "@ + value_text(value) + "\n"@,
        ElementView::ListStart(name) => "<list "@ + name + ">\n"@,
        ElementView::ListItem(value) => "- "@ + value_text(value) + "\n"@,
        ElementView::ListEnd => "</list>\n"@,
    }
}

/// The lines that show a message, one for each element, in order.
pub open spec fn message_text(m: Seq<ElementView>) -> Seq<char>
    decreases m.len(),
{
    if m.len() == 0 {
        Seq::empty()
    } else {
        message_text(m.drop_last()) + element_text(m.last())
    }
}

fn digit(n: u8) -> (r: &'static str)
    requires
        n < 16,
    ensures
        r@ == hex_digit(n as int),
{
    match n {
        0 => "0",
        1 => "1",
        2 => "2",
        3 => "3",
        4 => "4",
        5 => "5",
        6 => "6",
        7 => "7",
        8 => "8",
        9 => "9",
        10 => "a",
        11 => "b",
        12 => "c",
        13 => "d",
        14 => "e",
        _ => "f",
    }
}

/// Bytes in hexadecimal, lower case, two digits for each byte.
pub fn hex(bytes: &[u8]) -> (r: String)
    ensures
        r@ == hex_text(bytes@),
{
    let mut s = String::new();
    let mut i: usize = 0;
    while i < bytes.len()
        invariant
            i <= bytes.len(),
            s@ == hex_text(bytes@.take(i as int)),
        decreases bytes.len() - i,
    {
        let b = bytes[i];
        s.append(digit(b / 16));
        s.append(digit(b % 16));
        proof {
            let next = bytes@.take(i as int + 1);
            assert(next.drop_last() =~= bytes@.take(i as int));
        }
        i += 1;
    }
    assert(bytes@.take(i as int) =~= bytes@);
    s
}

/// Appends a value as shown to people.
fn push_value(s: &mut String, value: &[u8])
    ensures
        final(s)@ == old(s)@ + value_text(value@),
{
    match string_from_utf8(slice_to_vec(value)) {
        Ok(text) => {
            s.append(text.as_str());
        },
        Err(_) => {
            s.append("0x");
            s.append(hex(value).as_str());
        },
    }
}

/// Appends the line that shows one element.
fn push_element(s: &mut String, el: &Element)
    ensures
        final(s)@ == old(s)@ + element_text(el@),
{
    match el {
        Element::SectionStart(name) => {
            s.append("<section ");
            s.append(name.as_str());
            s.append(">\n");
        },
        Element::SectionEnd => {
            s.append("</section>\n");
        },
        Element::KeyValue(name, value) => {
            s.append(name.as_str());
            s.append(" = ");
            push_value(s, value.as_slice());
            s.append("\n");
        },
        Element::ListStart(name) => {
            s.append("<list ");
            s.append(name.as_str());
            s.append(">\n");
        },
        Element::ListItem(value) => {
            s.append("- ");
            push_value(s, value.as_slice());
            s.append("\n");
        },
        Element::ListEnd => {
            s.append("</list>\n");
        },
    }
}

impl Message {
    /// The message as text for people to read: one line for each element.
    pub fn to_text(&self) -> (r: String)
        ensures
            r@ == message_text(self@),
    {
        let elements = self.elements();
        let mut s = String::new();
        let mut i: usize = 0;
        while i < elements.len()
            invariant
                i <= elements.len(),
                views(elements@) == self@,
                s@ == message_text(self@.take(i as int)),
            decreases elements.len() - i,
        {
            push_element(&mut s, &elements[i]);
            proof {
                let next = self@.take(i as int + 1);
                assert(next.drop_last() =~= self@.take(i as int));
            }
            i += 1;
        }
        assert(self@.take(i as int) =~= self@);
        s
    }
}

} // verus!
