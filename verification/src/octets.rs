//! The byte buffer a point lookup returns.

use core::cmp::Ordering;
use vstd::prelude::*;

use crate::bytes::{bytes_cmp, bytes_eq, lex_cmp};

verus! {

/// The value bytes a lookup hands back.
///
/// A key that is not stored yields an empty buffer, and so does a stored
/// empty value: the two are deliberately indistinguishable, because a miss
/// is not an error. The length is fixed at construction; the contents may
/// be overwritten in place.
///
/// Equality is structural: two buffers are equal exactly when they hold the
/// same bytes, however they were made.
#[derive(Debug, Hash)]
pub struct Octets {
    bytes_: Vec<u8>,
}

impl View for Octets {
    type V = Seq<u8>;

    closed spec fn view(&self) -> Seq<u8> {
        self.bytes_@
    }
}

impl Octets {
    /// The empty buffer: what a lookup returns for a key never stored.
    pub fn empty() -> (r: Octets)
        ensures
            r@ == Seq::<u8>::empty(),
    {
        let r = Octets { bytes_: Vec::new() };
        proof {
            assert(r@ =~= Seq::<u8>::empty());
        }
        r
    }

    /// Wraps the value bytes of a successful lookup.
    pub fn from_vec(bytes: Vec<u8>) -> (r: Octets)
        ensures
            r@ == bytes@,
    {
        Octets { bytes_: bytes }
    }

    /// How many bytes the buffer holds.
    pub fn len(&self) -> (r: usize)
        ensures
            r == self@.len(),
    {
        self.bytes_.len()
    }

    /// Whether the buffer holds no bytes.
    pub fn is_empty(&self) -> (r: bool)
        ensures
            r == (self@.len() == 0),
    {
        self.bytes_.len() == 0
    }

    /// Read access to the whole buffer.
    pub fn as_slice(&self) -> (r: &[u8])
        ensures
            r@ == self@,
    {
        self.bytes_.as_slice()
    }

    /// The byte at position `i`.
    pub fn byte_at(&self, i: usize) -> (r: u8)
        requires
            i < self@.len(),
        ensures
            r == self@[i as int],
    {
        self.bytes_[i]
    }

    /// Overwrites the byte at position `i` in place; the length never
    /// changes.
    pub fn set_byte(&mut self, i: usize, value: u8)
        requires
            i < old(self)@.len(),
        ensures
            final(self)@ == old(self)@.update(i as int, value),
    {
        self.bytes_[i] = value;
    }
}

impl PartialEq for Octets {
    fn eq(&self, other: &Octets) -> (r: bool) {
        bytes_eq(self.bytes_.as_slice(), other.bytes_.as_slice())
    }
}

impl Eq for Octets {

}

impl vstd::std_specs::cmp::PartialEqSpecImpl for Octets {
    open spec fn obeys_eq_spec() -> bool {
        true
    }

    open spec fn eq_spec(&self, other: &Octets) -> bool {
        self@ == other@
    }
}

impl PartialOrd for Octets {
    fn partial_cmp(&self, other: &Octets) -> (r: Option<Ordering>) {
        Some(bytes_cmp(self.bytes_.as_slice(), other.bytes_.as_slice()))
    }
}

impl vstd::std_specs::cmp::PartialOrdSpecImpl for Octets {
    open spec fn obeys_partial_cmp_spec() -> bool {
        true
    }

    open spec fn partial_cmp_spec(&self, other: &Octets) -> Option<Ordering> {
        Some(lex_cmp(self@, other@))
    }
}

} // verus!
