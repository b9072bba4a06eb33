//! Equality of elements, messages and packets: two of them are equal exactly
//! when their mathematical values are, that is, names character by character
//! and values byte by byte.
use crate::packet::Packet;
use crate::wire::{views, Element, Message};
use vstd::prelude::*;
use vstd::std_specs::cmp::PartialEqSpecImpl;

verus! {

/// Whether two byte strings hold the same bytes.
fn bytes_equal(a: &[u8], b: &[u8]) -> (r: bool)
    ensures
        r == (a@ == b@),
{
    if a.len() != b.len() {
        return false;
    }
    let mut i: usize = 0;
    while i < a.len()
        invariant
            i <= a.len(),
            a@.len() == b@.len(),
            a@.take(i as int) == b@.take(i as int),
        decreases a.len() - i,
    {
        if a[i] != b[i] {
            return false;
        }
        i += 1;
    }
    assert(a@.take(i as int) =~= a@);
    assert(b@.take(i as int) =~= b@);
    true
}

impl PartialEq for Element {
    fn eq(&self, other: &Self) -> (r: bool) {
        match (self, other) {
            (Element::SectionStart(a), Element::SectionStart(b)) => *a == *b,
            (Element::SectionEnd, Element::SectionEnd) => true,
            (Element::KeyValue(a, x), Element::KeyValue(b, y)) => *a == *b && bytes_equal(
                x.as_slice(),
                y.as_slice(),
            ),
            (Element::ListStart(a), Element::ListStart(b)) => *a == *b,
            (Element::ListItem(x), Element::ListItem(y)) => bytes_equal(x.as_slice(), y.as_slice()),
            (Element::ListEnd, Element::ListEnd) => true,
            _ => false,
        }
    }
}

impl PartialEqSpecImpl for Element {
    open spec fn obeys_eq_spec() -> bool {
        true
    }

    open spec fn eq_spec(&self, other: &Self) -> bool {
        self@ == other@
    }
}

impl PartialEq for Message {
    fn eq(&self, other: &Self) -> (r: bool) {
        let a = self.elements();
        let b = other.elements();
        if a.len() != b.len() {
            assert(views(a@).len() != views(b@).len());
            return false;
        }
        let mut i: usize = 0;
        while i < a.len()
            invariant
                i <= a.len(),
                a@.len() == b@.len(),
                views(a@) == self@,
                views(b@) == other@,
                forall|j: int| 0 <= j < i ==> a@[j]@ == b@[j]@,
            decreases a.len() - i,
        {
            if !(a[i] == b[i]) {
                assert(views(a@)[i as int] != views(b@)[i as int]);
                return false;
            }
            i += 1;
        }
        assert(views(a@) =~= views(b@));
        true
    }
}

impl PartialEqSpecImpl for Message {
    open spec fn obeys_eq_spec() -> bool {
        true
    }

    open spec fn eq_spec(&self, other: &Self) -> bool {
        self@ == other@
    }
}

impl PartialEq for Packet {
    fn eq(&self, other: &Self) -> (r: bool) {
        if self.ty != other.ty {
            return false;
        }
        let names = match (&self.name, &other.name) {
            (Some(a), Some(b)) => *a == *b,
            (None, None) => true,
            _ => false,
        };
        if !names {
            return false;
        }
        match (&self.message, &other.message) {
            (Some(a), Some(b)) => *a == *b,
            (None, None) => true,
            _ => false,
        }
    }
}

impl PartialEqSpecImpl for Packet {
    open spec fn obeys_eq_spec() -> bool {
        true
    }

    open spec fn eq_spec(&self, other: &Self) -> bool {
        self@ == other@
    }
}

} // verus!
