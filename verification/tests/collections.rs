use hush::runtime::value::{
    Array, CallContext, Dict, EmptyCollection, Error, Float, IndexOutOfBounds, Str, Value,
};
use hush::runtime::SourcePos;
use hush::symbol::{Interner, Symbol};

fn text(bytes: &str) -> Value {
    Value::from(bytes)
}

#[test]
fn array_index_in_and_out_of_bounds() {
    let array = Array::new(vec![Value::Int(10), Value::Int(20)]);
    assert!(array.index(0).unwrap() == Value::Int(10));
    assert!(array.index(1).unwrap() == Value::Int(20));
    assert_eq!(array.index(2).unwrap_err(), IndexOutOfBounds);
    assert_eq!(array.index(-1).unwrap_err(), IndexOutOfBounds);
    assert_eq!(array.index(i64::MAX).unwrap_err(), IndexOutOfBounds);
    assert_eq!(array.index(i64::MIN).unwrap_err(), IndexOutOfBounds);
    assert!(array.get(1).is_some());
    assert!(array.get(2).is_none());
}

#[test]
fn array_set_push_pop() {
    let mut array = Array::new(Vec::new());
    assert!(array.is_empty());
    assert_eq!(array.pop().unwrap_err(), EmptyCollection);
    array.push(Value::Int(1));
    array.push(Value::Int(2));
    assert_eq!(array.len(), 2);
    assert_eq!(array.set(2, Value::Nil).unwrap_err(), IndexOutOfBounds);
    assert_eq!(array.set(-1, Value::Nil).unwrap_err(), IndexOutOfBounds);
    assert!(array == Array::new(vec![Value::Int(1), Value::Int(2)]));
    array.set(1, Value::Bool(true)).unwrap();
    assert!(array == Array::new(vec![Value::Int(1), Value::Bool(true)]));
    assert!(array.pop().unwrap() == Value::Bool(true));
    assert!(array.pop().unwrap() == Value::Int(1));
    assert!(array.is_empty());
}

#[test]
fn array_contains() {
    let array = Array::new(vec![Value::Int(1), text("x")]);
    assert!(array.contains(&text("x")));
    assert!(!array.contains(&text("y")));
    assert!(!array.contains(&Value::Byte(1)));
}

#[test]
fn dict_insert_get_remove() {
    let mut dict = Dict::new();
    assert!(dict.is_empty());
    assert!(dict.insert(text("b"), Value::Int(2)).is_none());
    assert!(dict.insert(text("a"), Value::Int(1)).is_none());
    assert!(dict.insert(text("c"), Value::Int(3)).is_none());
    assert_eq!(dict.len(), 3);
    assert!(dict.insert(text("b"), Value::Int(20)).unwrap() == Value::Int(2));
    assert_eq!(dict.len(), 3);
    assert!(*dict.get(&text("a")).unwrap() == Value::Int(1));
    assert!(*dict.get(&text("b")).unwrap() == Value::Int(20));
    assert!(*dict.get(&text("c")).unwrap() == Value::Int(3));
    assert!(dict.get(&text("d")).is_none());
    assert!(dict.contains_key(&text("c")));
    assert!(!dict.contains_key(&Value::Nil));
    assert!(dict.remove(&text("a")).unwrap() == Value::Int(1));
    assert!(dict.remove(&text("a")).is_none());
    assert_eq!(dict.len(), 2);
    assert!(dict.get(&text("a")).is_none());
    assert!(*dict.get(&text("c")).unwrap() == Value::Int(3));
}

#[test]
fn dict_is_the_same_whatever_the_order_of_insertion() {
    let mut one = Dict::new();
    one.insert(Value::Int(1), Value::Nil);
    one.insert(text("k"), Value::Nil);
    one.insert(Value::Bool(true), Value::Nil);
    let mut other = Dict::new();
    other.insert(text("k"), Value::Nil);
    other.insert(Value::Bool(true), Value::Nil);
    other.insert(Value::Int(1), Value::Nil);
    assert!(one == other);
    assert!(Value::Dict(one) == Value::Dict(other));
}

#[test]
fn dict_takes_floats_as_keys() {
    let nan = Value::Float(Float::from_bits(f64::NAN.to_bits()));
    let zero = Value::Float(Float::from_bits(0.0f64.to_bits()));
    let minus_zero = Value::Float(Float::from_bits((-0.0f64).to_bits()));
    let mut dict = Dict::new();
    dict.insert(nan.copy(), Value::Int(1));
    dict.insert(zero.copy(), Value::Int(2));
    dict.insert(minus_zero.copy(), Value::Int(3));
    dict.insert(nan.copy(), Value::Int(4));
    assert_eq!(dict.len(), 3);
    assert!(*dict.get(&nan).unwrap() == Value::Int(4));
    assert!(*dict.get(&zero).unwrap() == Value::Int(2));
    assert!(*dict.get(&minus_zero).unwrap() == Value::Int(3));
}

#[test]
fn error_has_a_message_and_may_have_a_cause() {
    let cause = Error::new(Str::new(b"disk full".to_vec()));
    let error = Error::new(Str::new(b"cannot save".to_vec()));
    assert_eq!(error.len(), 1);
    assert!(*error.message() == text("cannot save"));
    assert!(error.cause().is_none());
    let error = error.caused_by(cause.copy());
    assert_eq!(error.len(), 2);
    assert!(*error.message() == text("cannot save"));
    assert!(*error.cause().unwrap() == Value::Error(cause));
    assert!(*error.get(Symbol::message()).unwrap() == text("cannot save"));
    assert!(error.get(Symbol::new(7)).is_none());
}

#[test]
fn error_fields_are_set_and_replaced() {
    let error = Error::new(Str::new(b"bad".to_vec()))
        .with(Symbol::new(9), Value::Int(9))
        .with(Symbol::new(5), Value::Int(5))
        .with(Symbol::new(9), Value::Int(90))
        .with(Symbol::message(), text("worse"));
    assert_eq!(error.len(), 3);
    assert!(*error.message() == text("worse"));
    assert!(*error.get(Symbol::new(5)).unwrap() == Value::Int(5));
    assert!(*error.get(Symbol::new(9)).unwrap() == Value::Int(90));
    let same = Error::new(Str::new(b"worse".to_vec()))
        .with(Symbol::new(5), Value::Int(5))
        .with(Symbol::new(9), Value::Int(90));
    assert!(error == same);
}

#[test]
fn collection_errors_convert_to_errors() {
    let empty = Error::from(EmptyCollection);
    assert!(*empty.message() == text("collection is empty"));
    let bounds: Error = IndexOutOfBounds.into();
    assert!(*bounds.message() == text("index out of bounds"));
    assert!(empty != bounds);
}

#[test]
fn call_context_holds_arguments_and_position() {
    let pos = SourcePos::new(Symbol::new(3), 12, 5);
    let context = CallContext::new(vec![Value::Int(1), text("two")], pos);
    assert_eq!(context.len(), 2);
    assert_eq!(context.pos(), pos);
    assert!(*context.arg(0).unwrap() == Value::Int(1));
    assert!(*context.arg(1).unwrap() == text("two"));
    assert!(context.arg(2).is_none());
    let args = context.into_args();
    assert!(args == vec![Value::Int(1), text("two")]);
}

#[test]
fn interner_gives_one_symbol_per_text() {
    let mut interner = Interner::new();
    assert_eq!(interner.len(), 2);
    assert_eq!(interner.get(b"message"), Some(Symbol::message()));
    assert_eq!(interner.get(b"cause"), Some(Symbol::cause()));
    assert_eq!(interner.resolve(Symbol::message()), Some(&b"message"[..]));
    assert_eq!(interner.resolve(Symbol::cause()), Some(&b"cause"[..]));
    assert_eq!(interner.get(b"<stdin>"), None);
    let path = interner.get_or_intern(b"<stdin>");
    assert_eq!(path.id(), 2);
    assert_eq!(interner.get_or_intern(b"<stdin>"), path);
    assert_eq!(interner.get_or_intern(b"message"), Symbol::message());
    let other = interner.get_or_intern(b"");
    assert!(other != path);
    assert_eq!(interner.len(), 4);
    assert_eq!(interner.resolve(path), Some(&b"<stdin>"[..]));
    assert_eq!(interner.resolve(other), Some(&b""[..]));
    assert_eq!(interner.resolve(Symbol::new(4)), None);
}

#[test]
fn source_positions() {
    let path = Symbol::new(2);
    let whole = SourcePos::file(path);
    assert!(whole.is_file());
    assert_eq!(whole, SourcePos { path, line: 0, column: 0 });
    let place = SourcePos::new(path, 3, 1);
    assert!(!place.is_file());
    assert!(whole < place);
}

#[test]
fn dict_hands_out_its_entries_in_key_order() {
    let mut dict = Dict::new();
    dict.insert(text("b"), Value::Int(2));
    dict.insert(Value::Int(7), Value::Nil);
    dict.insert(text("a"), Value::Int(1));
    let entries = dict.entries();
    let expected = vec![
        (Value::Int(7), Value::Nil),
        (text("a"), Value::Int(1)),
        (text("b"), Value::Int(2)),
    ];
    assert!(entries == expected);
}

#[test]
fn error_hands_out_its_fields_in_symbol_order() {
    let error = Error::new(Str::new(b"bad".to_vec()))
        .with(Symbol::new(6), Value::Int(6))
        .caused_by(Error::new(Str::new(b"root".to_vec())));
    let fields = error.fields();
    assert_eq!(fields.len(), 3);
    assert_eq!(fields[0].0, Symbol::message());
    assert_eq!(fields[1].0, Symbol::cause());
    assert_eq!(fields[2].0, Symbol::new(6));
    assert!(fields[2].1 == Value::Int(6));
}
