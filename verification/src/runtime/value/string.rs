//! Byte strings.

use vstd::prelude::*;
use super::order::{bytes_order, compare_bytes, lemma_bytes_order_equal, Order};

verus! {

/// A handle of the `gc` crate to a boxed byte slice: a `Gc<Box<[u8]>>`. The
/// handle is shared, never written through, and freed by the collector once
/// nothing holds it. What is said of it below is taken on trust from that
/// crate. The collector refuses to be used while it sweeps; nothing of this
/// library runs then, as none of its types has a destructor of its own.
#[verifier::external_body]
#[derive(Debug, Hash, PartialEq, Eq, PartialOrd, Ord)]
pub struct Handle {
    shared: gc::Gc<Box<[u8]>>,
}

/// The bytes behind a handle.
pub uninterp spec fn bytes_of(handle: Handle) -> Seq<u8>;

/// `Gc::new` on the bytes of `bytes`, boxed: the new handle holds those bytes,
/// in that order.
#[verifier::external_body]
fn handle_new(bytes: Vec<u8>) -> (handle: Handle)
    ensures
        bytes_of(handle) == bytes@,
{
    Handle { shared: gc::Gc::new(bytes.into_boxed_slice()) }
}

/// `Gc::clone`: a second handle to the same allocation, and so to the same
/// bytes.
#[verifier::external_body]
fn handle_clone(handle: &Handle) -> (twin: Handle)
    ensures
        bytes_of(twin) == bytes_of(*handle),
{
    Handle { shared: handle.shared.clone() }
}

/// `Gc::deref`: the bytes behind the handle, as a slice.
#[verifier::external_body]
fn handle_slice(handle: &Handle) -> (bytes: &[u8])
    ensures
        bytes@ == bytes_of(*handle),
{
    &handle.shared
}

/// An immutable byte string, shared by a garbage-collected handle.
#[derive(Debug, Hash, PartialOrd, Ord)]
pub struct Str {
    handle: Handle,
}

impl View for Str {
    type V = Seq<u8>;

    closed spec fn view(&self) -> Seq<u8> {
        bytes_of(self.handle)
    }
}

impl Str {
    /// The string of the given bytes.
    pub fn new(bytes: Vec<u8>) -> (string: Str)
        ensures
            string@ == bytes@,
    {
        Str { handle: handle_new(bytes) }
    }

    /// Shallow copy: another handle to the same bytes.
    pub fn copy(&self) -> (string: Str)
        ensures
            string@ == self@,
    {
        Str { handle: handle_clone(&self.handle) }
    }

    /// The bytes of the string.
    pub fn as_bytes(&self) -> (bytes: &[u8])
        ensures
            bytes@ == self@,
    {
        handle_slice(&self.handle)
    }

    /// The number of bytes.
    pub fn len(&self) -> (len: usize)
        ensures
            len == self@.len(),
    {
        self.as_bytes().len()
    }

    /// Whether the string holds no byte.
    pub fn is_empty(&self) -> (empty: bool)
        ensures
            empty == (self@.len() == 0),
    {
        self.as_bytes().len() == 0
    }

    /// How the string stands to `other`: lexicographically, byte by byte.
    pub fn compare(&self, other: &Str) -> (found: Order)
        ensures
            found == bytes_order(self@, other@),
    {
        compare_bytes(self.as_bytes(), other.as_bytes())
    }

    /// Whether the two strings hold the same bytes.
    pub fn equals(&self, other: &Str) -> (same: bool)
        ensures
            same == (self@ == other@),
    {
        proof {
            lemma_bytes_order_equal(self@, other@);
        }
        self.compare(other).is_equal()
    }
}

impl PartialEq for Str {
    fn eq(&self, other: &Str) -> (same: bool) {
        self.equals(other)
    }
}

impl vstd::std_specs::cmp::PartialEqSpecImpl for Str {
    open spec fn obeys_eq_spec() -> bool {
        true
    }

    open spec fn eq_spec(&self, other: &Str) -> bool {
        self@ == other@
    }
}

impl Eq for Str {

}

} // verus!
