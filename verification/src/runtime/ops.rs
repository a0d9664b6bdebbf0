//! What the evaluator does with values of dynamic type, and when it panics.

use vstd::prelude::*;
use super::panic::{Panic, PanicView};
use super::source::SourcePos;
use super::value::dict::lookup;
use super::value::{Function, Value, ValueView};

verus! {

/// What `container[index]` is, where it is anything.
///
/// An array has an item at each integer from 0 to below its length; a string
/// has a byte there; a dictionary has the value of each of its keys.
pub open spec fn indexed(container: ValueView, index: ValueView) -> Option<ValueView> {
    match (container, index) {
        (ValueView::Array(items), ValueView::Int(at)) => if 0 <= at < items.len() {
            Some(items[at as int])
        } else {
            None
        },
        (ValueView::String(bytes), ValueView::Int(at)) => if 0 <= at < bytes.len() {
            Some(ValueView::Byte(bytes[at as int]))
        } else {
            None
        },
        (ValueView::Dict(entries), key) => lookup(entries, key),
        _ => None,
    }
}

/// The value that keeps `container[index]` from making sense, if there is one:
/// a container that is none, or an index of a kind that the container does not
/// take.
pub open spec fn misfit(container: ValueView, index: ValueView) -> Option<ValueView> {
    match container {
        ValueView::Array(_) | ValueView::String(_) => if index is Int {
            None
        } else {
            Some(index)
        },
        ValueView::Dict(_) => None,
        _ => Some(container),
    }
}

/// The value of the expression `container[key]` that stands at `pos`: a copy
/// of what the container has there. Indexing what cannot be indexed is a type
/// error, and an index that the container does not have is out of bounds;
/// both panic at `pos`.
pub fn index(container: &Value, key: &Value, pos: SourcePos) -> (found: Result<Value, Panic>)
    ensures
        match found {
            Ok(value) => indexed(container@, key@) == Some(value@),
            Err(panic) => indexed(container@, key@) is None && panic@ == (match misfit(
                container@,
                key@,
            ) {
                Some(value) => PanicView::TypeError { value, pos },
                None => PanicView::IndexOutOfBounds { index: key@, pos },
            }),
        },
{
    match (container, key) {
        (Value::Array(array), Value::Int(at)) => match array.index(*at) {
            Ok(value) => Ok(value),
            Err(_) => Err(Panic::index_out_of_bounds(key.copy(), pos)),
        },
        (Value::String(string), Value::Int(at)) => {
            let bytes = string.as_bytes();
            if 0 <= *at && (*at as u64) < bytes.len() as u64 {
                Ok(Value::Byte(bytes[*at as usize]))
            } else {
                Err(Panic::index_out_of_bounds(key.copy(), pos))
            }
        },
        (Value::Array(_), _) => Err(Panic::type_error(key.copy(), pos)),
        (Value::String(_), _) => Err(Panic::type_error(key.copy(), pos)),
        (Value::Dict(dict), _) => match dict.get(key) {
            Some(value) => Ok(value.copy()),
            None => Err(Panic::index_out_of_bounds(key.copy(), pos)),
        },
        _ => Err(Panic::type_error(container.copy(), pos)),
    }
}

/// The function that the call at `pos` calls. Calling what is no function
/// panics at `pos`.
pub fn callee(value: &Value, pos: SourcePos) -> (found: Result<Function, Panic>)
    ensures
        match found {
            Ok(function) => value@ == ValueView::Function(function),
            Err(panic) => !(value@ is Function) && panic@ == (PanicView::InvalidCall {
                function: value@,
                pos,
            }),
        },
{
    match value {
        Value::Function(function) => Ok(*function),
        _ => Err(Panic::invalid_call(value.copy(), pos)),
    }
}

} // verus!
