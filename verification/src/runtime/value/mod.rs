//! Values of dynamic type.

pub mod array;
pub mod convert;
pub mod dict;
pub mod error;
pub mod errors;
pub mod float;
pub mod function;
pub mod order;
pub mod partial_order;
pub mod string;

use vstd::prelude::*;
use crate::symbol::Symbol;
use order::{compare_functions, compare_ints, kind, order};
pub use array::Array;
pub use dict::Dict;
pub use error::Error;
pub use errors::{EmptyCollection, IndexOutOfBounds};
pub use order::Order;
pub use float::Float;
pub use function::{CallContext, Function, HushFun, RustFun};
pub use string::Str;

verus! {

/// What a value is, apart from how it is stored.
pub enum ValueView {
    Nil,
    Bool(bool),
    Int(i64),
    /// A float, as its bit pattern.
    Float(u64),
    Byte(u8),
    /// A string, as its bytes.
    String(Seq<u8>),
    /// An array, as its items.
    Array(Seq<ValueView>),
    /// A dictionary, as its entries in the order of their keys.
    Dict(Seq<(ValueView, ValueView)>),
    Function(Function),
    /// An error, as its fields in the order of their symbols.
    Error(Seq<(Symbol, ValueView)>),
}

/// What the values are, each apart from how it is stored.
pub open spec fn views(items: Seq<Value>) -> Seq<ValueView> {
    Seq::new(items.len(), |i: int| items[i]@)
}

/// A value of dynamic type in the language.
///
/// Values are equal when they are the same [`ValueView`], and stand in the
/// total order that [`order::order`] defines; `==`, `<` and the like say so.
/// Every kind of value is stored in one form only, so that the derived hash and
/// the derived `Ord` go by the same equality and the same order.
#[derive(Debug, Hash, Ord)]
pub enum Value {
    Nil,
    Bool(bool),
    Int(i64),
    Float(Float),
    Byte(u8),
    /// Strings are immutable.
    String(Str),
    Array(Array),
    Dict(Dict),
    Function(Function),
    Error(Error),
}

impl View for Value {
    type V = ValueView;

    open spec fn view(&self) -> ValueView
        decreases self,
    {
        match self {
            Value::Nil => ValueView::Nil,
            Value::Bool(b) => ValueView::Bool(*b),
            Value::Int(number) => ValueView::Int(*number),
            Value::Float(float) => ValueView::Float(float@),
            Value::Byte(byte) => ValueView::Byte(*byte),
            Value::String(string) => ValueView::String(string@),
            Value::Array(array) => ValueView::Array(array@),
            Value::Dict(dict) => ValueView::Dict(dict@),
            Value::Function(function) => ValueView::Function(*function),
            Value::Error(error) => ValueView::Error(error@),
        }
    }
}

impl Value {
    /// Make a shallow copy of the value.
    ///
    /// The copy is the same value, and it is its own: what is done to the
    /// items of a copied array or dictionary is not seen in the value it was
    /// copied from.
    pub fn copy(&self) -> (copy: Value)
        ensures
            copy@ == self@,
        decreases self,
    {
        match self {
            Value::Nil => Value::Nil,
            Value::Bool(b) => Value::Bool(*b),
            Value::Int(number) => Value::Int(*number),
            Value::Float(float) => Value::Float(float.copy()),
            Value::Byte(byte) => Value::Byte(*byte),
            Value::String(string) => Value::String(string.copy()),
            Value::Array(array) => Value::Array(array.copy()),
            Value::Dict(dict) => Value::Dict(dict.copy()),
            Value::Function(fun) => Value::Function(fun.copy()),
            Value::Error(error) => Value::Error(error.copy()),
        }
    }

    /// Check if the value is an error.
    pub fn is_error(&self) -> (error: bool)
        ensures
            error == (self@ is Error),
    {
        match self {
            Value::Error(_) => true,
            _ => false,
        }
    }

    /// Check if the value is nil.
    pub fn is_nil(&self) -> (nil: bool)
        ensures
            nil == (self@ is Nil),
    {
        match self {
            Value::Nil => true,
            _ => false,
        }
    }

    /// The place of the value's kind among the kinds.
    fn kind(&self) -> (place: u8)
        ensures
            place == kind(self@),
    {
        match self {
            Value::Nil => 0,
            Value::Bool(_) => 1,
            Value::Int(_) => 2,
            Value::Float(_) => 3,
            Value::Byte(_) => 4,
            Value::String(_) => 5,
            Value::Array(_) => 6,
            Value::Dict(_) => 7,
            Value::Function(_) => 8,
            Value::Error(_) => 9,
        }
    }

    /// Whether the two values are the same value.
    pub fn equals(&self, other: &Value) -> (same: bool)
        ensures
            same == (self@ == other@),
        decreases self,
    {
        match (self, other) {
            (Value::Nil, Value::Nil) => true,
            (Value::Bool(a), Value::Bool(b)) => *a == *b,
            (Value::Int(a), Value::Int(b)) => *a == *b,
            (Value::Float(a), Value::Float(b)) => a.equals(b),
            (Value::Byte(a), Value::Byte(b)) => *a == *b,
            (Value::String(a), Value::String(b)) => a.equals(b),
            (Value::Array(a), Value::Array(b)) => a.equals(b),
            (Value::Dict(a), Value::Dict(b)) => a.equals(b),
            (Value::Function(a), Value::Function(b)) => *a == *b,
            (Value::Error(a), Value::Error(b)) => a.equals(b),
            _ => false,
        }
    }

    /// How the value stands to `other` in the total order of values.
    pub fn compare(&self, other: &Value) -> (found: Order)
        ensures
            found == order(self@, other@),
        decreases self,
    {
        match (self, other) {
            (Value::Nil, Value::Nil) => Order::Equal,
            (Value::Bool(a), Value::Bool(b)) => compare_ints(
                if *a {
                    1
                } else {
                    0
                },
                if *b {
                    1
                } else {
                    0
                },
            ),
            (Value::Int(a), Value::Int(b)) => compare_ints(*a as i128, *b as i128),
            (Value::Float(a), Value::Float(b)) => a.compare(b),
            (Value::Byte(a), Value::Byte(b)) => compare_ints(*a as i128, *b as i128),
            (Value::String(a), Value::String(b)) => a.compare(b),
            (Value::Array(a), Value::Array(b)) => a.compare(b),
            (Value::Dict(a), Value::Dict(b)) => a.compare(b),
            (Value::Function(a), Value::Function(b)) => compare_functions(a, b),
            (Value::Error(a), Value::Error(b)) => a.compare(b),
            _ => compare_ints(self.kind() as i128, other.kind() as i128),
        }
    }
}

impl Default for Value {
    /// The default value is Nil.
    fn default() -> (value: Value)
        ensures
            value@ == ValueView::Nil,
    {
        Value::Nil
    }
}

impl PartialEq for Value {
    fn eq(&self, other: &Value) -> (same: bool) {
        self.equals(other)
    }
}

impl vstd::std_specs::cmp::PartialEqSpecImpl for Value {
    open spec fn obeys_eq_spec() -> bool {
        true
    }

    open spec fn eq_spec(&self, other: &Value) -> bool {
        self@ == other@
    }
}

impl Eq for Value {

}

} // verus!
