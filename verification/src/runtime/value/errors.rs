//! What can go wrong with a collection.

use vstd::prelude::*;
use vstd::slice::slice_to_vec;
use vstd::string::StringSliceAdditionalSpecFns;
use crate::symbol::Symbol;
use super::error::Error;
use super::string::Str;
use super::ValueView;

verus! {

/// Something was taken from a collection that holds nothing.
#[derive(Debug, Clone, Copy, PartialEq, Eq, Structural)]
pub struct EmptyCollection;

/// A collection was asked for an index it does not have.
#[derive(Debug, Clone, Copy, PartialEq, Eq, Structural)]
pub struct IndexOutOfBounds;

/// What the error of an empty collection says.
pub open spec fn empty_collection_text() -> Seq<u8> {
    "collection is empty".spec_bytes()
}

/// What the error of an index out of bounds says.
pub open spec fn index_out_of_bounds_text() -> Seq<u8> {
    "index out of bounds".spec_bytes()
}

impl From<EmptyCollection> for Error {
    /// The error that a script gets to see.
    fn from(failure: EmptyCollection) -> (error: Error)
        ensures
            error@ == seq![(Symbol::message_spec(), ValueView::String(empty_collection_text()))],
    {
        Error::new(Str::new(slice_to_vec("collection is empty".as_bytes())))
    }
}

impl vstd::std_specs::convert::FromSpecImpl<EmptyCollection> for Error {
    open spec fn obeys_from_spec() -> bool {
        false
    }

    open spec fn from_spec(failure: EmptyCollection) -> Error {
        arbitrary()
    }
}

impl From<IndexOutOfBounds> for Error {
    /// The error that a script gets to see.
    fn from(failure: IndexOutOfBounds) -> (error: Error)
        ensures
            error@ == seq![(Symbol::message_spec(), ValueView::String(index_out_of_bounds_text()))],
    {
        Error::new(Str::new(slice_to_vec("index out of bounds".as_bytes())))
    }
}

impl vstd::std_specs::convert::FromSpecImpl<IndexOutOfBounds> for Error {
    open spec fn obeys_from_spec() -> bool {
        false
    }

    open spec fn from_spec(failure: IndexOutOfBounds) -> Error {
        arbitrary()
    }
}

} // verus!
