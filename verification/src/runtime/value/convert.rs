//! Values from what the host has: each conversion gives a value and cannot
//! fail.

use vstd::prelude::*;
use vstd::slice::slice_to_vec;
use vstd::string::StringSliceAdditionalSpecFns;
use vstd::utf8::encode_utf8;
use super::views;
use super::{Array, Dict, Error, Float, Function, HushFun, RustFun, Str, Value, ValueView};

verus! {

impl From<bool> for Value {
    /// A truth value as a value.
    fn from(value: bool) -> (made: Value)
        ensures
            made@ == ValueView::Bool(value),
    {
        Value::Bool(value)
    }
}

impl vstd::std_specs::convert::FromSpecImpl<bool> for Value {
    open spec fn obeys_from_spec() -> bool {
        true
    }

    open spec fn from_spec(value: bool) -> Value {
        Value::Bool(value)
    }
}

impl From<i64> for Value {
    /// An integer as a value.
    fn from(value: i64) -> (made: Value)
        ensures
            made@ == ValueView::Int(value),
    {
        Value::Int(value)
    }
}

impl vstd::std_specs::convert::FromSpecImpl<i64> for Value {
    open spec fn obeys_from_spec() -> bool {
        true
    }

    open spec fn from_spec(value: i64) -> Value {
        Value::Int(value)
    }
}

impl From<u8> for Value {
    /// A byte as a value.
    fn from(value: u8) -> (made: Value)
        ensures
            made@ == ValueView::Byte(value),
    {
        Value::Byte(value)
    }
}

impl vstd::std_specs::convert::FromSpecImpl<u8> for Value {
    open spec fn obeys_from_spec() -> bool {
        true
    }

    open spec fn from_spec(value: u8) -> Value {
        Value::Byte(value)
    }
}

impl From<Float> for Value {
    /// A float as a value.
    fn from(value: Float) -> (made: Value)
        ensures
            made@ == ValueView::Float(value@),
    {
        Value::Float(value)
    }
}

impl vstd::std_specs::convert::FromSpecImpl<Float> for Value {
    open spec fn obeys_from_spec() -> bool {
        true
    }

    open spec fn from_spec(value: Float) -> Value {
        Value::Float(value)
    }
}

impl From<Str> for Value {
    /// A string as a value.
    fn from(value: Str) -> (made: Value)
        ensures
            made@ == ValueView::String(value@),
    {
        Value::String(value)
    }
}

impl vstd::std_specs::convert::FromSpecImpl<Str> for Value {
    open spec fn obeys_from_spec() -> bool {
        true
    }

    open spec fn from_spec(value: Str) -> Value {
        Value::String(value)
    }
}

impl From<Array> for Value {
    /// An array as a value.
    fn from(value: Array) -> (made: Value)
        ensures
            made@ == ValueView::Array(value@),
    {
        Value::Array(value)
    }
}

impl vstd::std_specs::convert::FromSpecImpl<Array> for Value {
    open spec fn obeys_from_spec() -> bool {
        true
    }

    open spec fn from_spec(value: Array) -> Value {
        Value::Array(value)
    }
}

impl From<Dict> for Value {
    /// A dictionary as a value.
    fn from(value: Dict) -> (made: Value)
        ensures
            made@ == ValueView::Dict(value@),
    {
        Value::Dict(value)
    }
}

impl vstd::std_specs::convert::FromSpecImpl<Dict> for Value {
    open spec fn obeys_from_spec() -> bool {
        true
    }

    open spec fn from_spec(value: Dict) -> Value {
        Value::Dict(value)
    }
}

impl From<Function> for Value {
    /// A function as a value.
    fn from(value: Function) -> (made: Value)
        ensures
            made@ == ValueView::Function(value),
    {
        Value::Function(value)
    }
}

impl vstd::std_specs::convert::FromSpecImpl<Function> for Value {
    open spec fn obeys_from_spec() -> bool {
        true
    }

    open spec fn from_spec(value: Function) -> Value {
        Value::Function(value)
    }
}

impl From<Error> for Value {
    /// An error as a value.
    fn from(value: Error) -> (made: Value)
        ensures
            made@ == ValueView::Error(value@),
    {
        Value::Error(value)
    }
}

impl vstd::std_specs::convert::FromSpecImpl<Error> for Value {
    open spec fn obeys_from_spec() -> bool {
        true
    }

    open spec fn from_spec(value: Error) -> Value {
        Value::Error(value)
    }
}

impl From<HushFun> for Value {
    /// A closure as a value.
    fn from(fun: HushFun) -> (made: Value)
        ensures
            made@ == ValueView::Function(Function::Hush(fun)),
    {
        Value::Function(Function::Hush(fun))
    }
}

impl vstd::std_specs::convert::FromSpecImpl<HushFun> for Value {
    open spec fn obeys_from_spec() -> bool {
        true
    }

    open spec fn from_spec(fun: HushFun) -> Value {
        Value::Function(Function::Hush(fun))
    }
}

impl From<RustFun> for Value {
    /// A host function as a value.
    fn from(fun: RustFun) -> (made: Value)
        ensures
            made@ == ValueView::Function(Function::Rust(fun)),
    {
        Value::Function(Function::Rust(fun))
    }
}

impl vstd::std_specs::convert::FromSpecImpl<RustFun> for Value {
    open spec fn obeys_from_spec() -> bool {
        true
    }

    open spec fn from_spec(fun: RustFun) -> Value {
        Value::Function(Function::Rust(fun))
    }
}

impl From<()> for Value {
    /// The unit of the host is nil.
    fn from(unit: ()) -> (made: Value)
        ensures
            made@ == ValueView::Nil,
    {
        Value::Nil
    }
}

impl vstd::std_specs::convert::FromSpecImpl<()> for Value {
    open spec fn obeys_from_spec() -> bool {
        true
    }

    open spec fn from_spec(unit: ()) -> Value {
        Value::Nil
    }
}

impl<'a> From<&'a [u8]> for Value {
    /// Bytes as a string; no bytes as the empty string.
    fn from(string: &'a [u8]) -> (made: Value)
        ensures
            made@ == ValueView::String(string@),
    {
        Value::String(Str::new(slice_to_vec(string)))
    }
}

impl<'a> vstd::std_specs::convert::FromSpecImpl<&'a [u8]> for Value {
    open spec fn obeys_from_spec() -> bool {
        false
    }

    open spec fn from_spec(string: &'a [u8]) -> Value {
        Value::Nil
    }
}

impl From<Box<[u8]>> for Value {
    /// Bytes as a string; no bytes as the empty string.
    fn from(string: Box<[u8]>) -> (made: Value)
        ensures
            made@ == ValueView::String(string@),
    {
        Value::String(Str::new(string.into_vec()))
    }
}

impl vstd::std_specs::convert::FromSpecImpl<Box<[u8]>> for Value {
    open spec fn obeys_from_spec() -> bool {
        false
    }

    open spec fn from_spec(string: Box<[u8]>) -> Value {
        Value::Nil
    }
}

impl<'a> From<&'a str> for Value {
    /// Text as the string of its bytes in UTF-8.
    fn from(string: &'a str) -> (made: Value)
        ensures
            made@ == ValueView::String(encode_utf8(string@)),
    {
        Value::String(Str::new(slice_to_vec(string.as_bytes())))
    }
}

impl<'a> vstd::std_specs::convert::FromSpecImpl<&'a str> for Value {
    open spec fn obeys_from_spec() -> bool {
        false
    }

    open spec fn from_spec(string: &'a str) -> Value {
        Value::Nil
    }
}

impl From<String> for Value {
    /// Text as the string of its bytes in UTF-8.
    fn from(string: String) -> (made: Value)
        ensures
            made@ == ValueView::String(encode_utf8(string@)),
    {
        Value::String(Str::new(slice_to_vec(string.as_str().as_bytes())))
    }
}

impl vstd::std_specs::convert::FromSpecImpl<String> for Value {
    open spec fn obeys_from_spec() -> bool {
        false
    }

    open spec fn from_spec(string: String) -> Value {
        Value::Nil
    }
}

impl From<Box<str>> for Value {
    /// Text as the string of its bytes in UTF-8.
    fn from(string: Box<str>) -> (made: Value)
        ensures
            made@ == ValueView::String(encode_utf8(string@)),
    {
        let text: &str = &string;
        Value::String(Str::new(slice_to_vec(text.as_bytes())))
    }
}

impl vstd::std_specs::convert::FromSpecImpl<Box<str>> for Value {
    open spec fn obeys_from_spec() -> bool {
        false
    }

    open spec fn from_spec(string: Box<str>) -> Value {
        Value::Nil
    }
}

impl From<Vec<Value>> for Value {
    /// Values as the array of them.
    fn from(array: Vec<Value>) -> (made: Value)
        ensures
            made@ == ValueView::Array(views(array@)),
    {
        Value::Array(Array::new(array))
    }
}

impl vstd::std_specs::convert::FromSpecImpl<Vec<Value>> for Value {
    open spec fn obeys_from_spec() -> bool {
        false
    }

    open spec fn from_spec(array: Vec<Value>) -> Value {
        Value::Nil
    }
}

impl<T: Into<Value>> From<Option<T>> for Value {
    /// Nothing as nil, and something as the value it converts to.
    fn from(option: Option<T>) -> (made: Value)
        ensures
            match option {
                Some(inner) => call_ensures(<T as Into<Value>>::into, (inner,), made),
                None => made@ == ValueView::Nil,
            },
    {
        match option {
            Some(inner) => inner.into(),
            None => Value::Nil,
        }
    }
}

impl<T: Into<Value>> vstd::std_specs::convert::FromSpecImpl<Option<T>> for Value {
    open spec fn obeys_from_spec() -> bool {
        false
    }

    open spec fn from_spec(option: Option<T>) -> Value {
        Value::Nil
    }
}

impl<T: Into<Value>, E: Into<Error>> From<Result<T, E>> for Value {
    /// Success as the value it converts to, and failure as an error value:
    /// the error that the failure converts to. A failure of the host never
    /// becomes a panic here.
    fn from(result: Result<T, E>) -> (made: Value)
        ensures
            match result {
                Ok(inner) => call_ensures(<T as Into<Value>>::into, (inner,), made),
                Err(failure) => exists|error: Error|
                    {
                        &&& #[trigger] call_ensures(<E as Into<Error>>::into, (failure,), error)
                        &&& made@ == ValueView::Error(error@)
                    },
            },
    {
        match result {
            Ok(inner) => inner.into(),
            Err(failure) => {
                let ghost given = failure;
                let error: Error = failure.into();
                assert(call_ensures(<E as Into<Error>>::into, (given,), error));
                Value::Error(error)
            },
        }
    }
}

impl<T: Into<Value>, E: Into<Error>> vstd::std_specs::convert::FromSpecImpl<Result<T, E>> for Value {
    open spec fn obeys_from_spec() -> bool {
        false
    }

    open spec fn from_spec(result: Result<T, E>) -> Value {
        Value::Nil
    }
}

} // verus!
