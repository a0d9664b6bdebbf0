use std::cmp::Ordering;
use std::collections::hash_map::DefaultHasher;
use std::hash::{Hash, Hasher};

use hush::runtime::value::{
    Array, Dict, EmptyCollection, Error, Float, Function, HushFun, IndexOutOfBounds, Order,
    RustFun, Str, Value,
};
use hush::runtime::SourcePos;
use hush::symbol::Symbol;

fn float(number: f64) -> Value {
    Value::Float(Float::from_bits(number.to_bits()))
}

fn string(text: &str) -> Value {
    Value::from(text)
}

fn closure(body: u64) -> HushFun {
    HushFun { params: 2, body, env: 9, pos: SourcePos::new(Symbol::new(4), 1, 1) }
}

fn samples() -> Vec<Value> {
    let mut dict = Dict::new();
    dict.insert(string("b"), Value::Int(2));
    dict.insert(string("a"), Value::Int(1));
    vec![
        Value::Nil,
        Value::Bool(false),
        Value::Bool(true),
        Value::Int(-3),
        Value::Int(7),
        float(-f64::NAN),
        float(f64::NEG_INFINITY),
        float(-1.5),
        float(-0.0),
        float(0.0),
        float(2.25),
        float(f64::INFINITY),
        float(f64::NAN),
        Value::Byte(0),
        Value::Byte(255),
        string(""),
        string("a"),
        string("ab"),
        string("b"),
        Value::from(Vec::<Value>::new()),
        Value::from(vec![Value::Int(1)]),
        Value::from(vec![Value::Int(1), Value::Nil]),
        Value::from(vec![Value::Int(2)]),
        Value::Dict(Dict::new()),
        Value::Dict(dict),
        Value::from(closure(1)),
        Value::from(closure(2)),
        Value::from(RustFun { id: 0 }),
        Value::Error(Error::new(Str::new(b"bad".to_vec()))),
        Value::Error(Error::new(Str::new(b"worse".to_vec()))),
    ]
}

fn hash_of(value: &Value) -> u64 {
    let mut hasher = DefaultHasher::new();
    value.hash(&mut hasher);
    hasher.finish()
}

#[test]
fn copy_is_equal_for_every_kind() {
    for value in samples() {
        let copy = value.copy();
        assert!(copy == value);
        assert!(value.equals(&copy));
        assert_eq!(value.compare(&copy), Order::Equal);
        assert_eq!(hash_of(&value), hash_of(&copy));
    }
}

#[test]
fn copy_of_array_is_independent() {
    let mut original = Array::new(vec![Value::Int(1), Value::Int(2)]);
    let mut copy = original.copy();
    assert!(copy == original);
    copy.push(Value::Int(3));
    copy.set(0, Value::Bool(true)).unwrap();
    assert_eq!(original.len(), 2);
    assert!(original.index(0).unwrap() == Value::Int(1));
    original.pop().unwrap();
    assert_eq!(copy.len(), 3);
    assert!(copy.index(1).unwrap() == Value::Int(2));
}

#[test]
fn copy_of_nested_array_is_independent() {
    let inner = Value::from(vec![Value::Int(1)]);
    let outer = Value::from(vec![inner]);
    let copy = outer.copy();
    let changed = match copy {
        Value::Array(mut array) => {
            array.set(0, Value::Nil).unwrap();
            Value::Array(array)
        }
        other => other,
    };
    assert!(changed != outer);
    assert!(outer == Value::from(vec![Value::from(vec![Value::Int(1)])]));
}

#[test]
fn copy_of_dict_is_independent() {
    let mut original = Dict::new();
    original.insert(Value::Int(1), string("one"));
    let mut copy = original.copy();
    copy.insert(Value::Int(2), string("two"));
    copy.insert(Value::Int(1), string("uno"));
    assert_eq!(original.len(), 1);
    assert!(*original.get(&Value::Int(1)).unwrap() == string("one"));
    assert!(original.get(&Value::Int(2)).is_none());
}

#[test]
fn copy_of_float_keeps_every_bit() {
    let payload = 0x7ff8_0000_dead_beefu64;
    let odd = Float::from_bits(payload);
    assert_eq!(odd.copy().to_bits(), payload);
    for bits in [0u64, 1, 0x8000_0000_0000_0000, u64::MAX, 0x7ff0_0000_0000_0000, 0xfff8_0000_0000_0001] {
        assert_eq!(Float::from_bits(bits).to_bits(), bits);
        assert_eq!(Float::from_bits(bits).copy().to_bits(), bits);
    }
}

#[test]
fn default_is_nil() {
    assert!(Value::default() == Value::Nil);
    assert!(Value::default().is_nil());
}

#[test]
fn only_errors_are_errors() {
    for value in samples() {
        assert_eq!(value.is_error(), matches!(value, Value::Error(_)));
    }
}

#[test]
fn conversions_from_host_values() {
    assert!(Value::from(true) == Value::Bool(true));
    assert!(Value::from(-5i64) == Value::Int(-5));
    assert!(Value::from(9u8) == Value::Byte(9));
    assert!(Value::from(()) == Value::Nil);
    assert!(Value::from(Float::from_bits(1.5f64.to_bits())) == float(1.5));
    assert!(Value::from(&b"hi"[..]) == string("hi"));
    assert!(Value::from(b"hi".to_vec().into_boxed_slice()) == string("hi"));
    assert!(Value::from(String::from("hi")) == string("hi"));
    assert!(Value::from(String::from("hi").into_boxed_str()) == string("hi"));
    assert!(Value::from(Str::new(vec![104, 105])) == string("hi"));
    assert!(Value::from(Function::Rust(RustFun { id: 3 })) == Value::from(RustFun { id: 3 }));
    assert!(Value::from(closure(1)) == Value::Function(Function::Hush(closure(1))));
    let array = Value::from(vec![Value::Int(1), Value::Nil]);
    match &array {
        Value::Array(items) => {
            assert_eq!(items.len(), 2);
            assert!(*items.get(1).unwrap() == Value::Nil);
        }
        _ => panic!("not an array"),
    }
}

#[test]
fn text_converts_to_its_utf8_bytes() {
    match Value::from("é") {
        Value::String(text) => assert_eq!(text.as_bytes(), &[0xc3u8, 0xa9u8][..]),
        _ => panic!("not a string"),
    }
}

#[test]
fn empty_bytes_are_the_empty_string_not_nil() {
    let empty: &[u8] = &[];
    let value = Value::from(empty);
    assert!(!value.is_nil());
    match value {
        Value::String(text) => {
            assert_eq!(text.len(), 0);
            assert!(text.is_empty());
        }
        _ => panic!("not a string"),
    }
}

#[test]
fn none_is_nil_whatever_the_type() {
    assert!(Value::from(None::<i64>) == Value::Nil);
    assert!(Value::from(None::<bool>) == Value::Nil);
    assert!(Value::from(None::<Vec<Value>>) == Value::Nil);
    assert!(Value::from(Some(4i64)) == Value::Int(4));
    assert!(Value::from(Some(Some(true))) == Value::Bool(true));
}

#[test]
fn failure_becomes_an_error_value() {
    let failed: Result<i64, IndexOutOfBounds> = Err(IndexOutOfBounds);
    let value = Value::from(failed);
    assert!(value.is_error());
    match value {
        Value::Error(error) => assert!(*error.message() == string("index out of bounds")),
        _ => panic!("not an error"),
    }
    let empty: Result<bool, EmptyCollection> = Err(EmptyCollection);
    match Value::from(empty) {
        Value::Error(error) => assert!(*error.message() == string("collection is empty")),
        _ => panic!("not an error"),
    }
    let fine: Result<i64, IndexOutOfBounds> = Ok(3);
    assert!(Value::from(fine) == Value::Int(3));
}

#[test]
fn samples_stand_in_rising_order() {
    let values = samples();
    for low in 0..values.len() {
        for high in 0..values.len() {
            let expected = if low < high {
                Order::Less
            } else if low == high {
                Order::Equal
            } else {
                Order::Greater
            };
            assert_eq!(values[low].compare(&values[high]), expected, "{} against {}", low, high);
        }
    }
}

#[test]
fn exactly_one_of_less_equal_greater() {
    let values = samples();
    for a in &values {
        for b in &values {
            let held = [a < b, a == b, a > b].iter().filter(|held| **held).count();
            assert_eq!(held, 1);
            assert_eq!(a <= b, !(a > b));
            assert_eq!(a >= b, !(a < b));
        }
    }
}

#[test]
fn nan_is_ordered_and_equal_to_itself() {
    let nan = float(f64::NAN);
    let one = float(1.0);
    assert!(nan == nan.copy());
    assert!(one < nan);
    assert!(!(nan < one));
    assert!(float(f64::INFINITY) < nan);
    assert!(float(-f64::NAN) < float(f64::NEG_INFINITY));
    assert!(float(-0.0) < float(0.0));
    assert!(float(-0.0) != float(0.0));
}

#[test]
fn floats_stand_as_total_cmp_has_them() {
    let numbers = [
        -f64::NAN,
        f64::NEG_INFINITY,
        f64::MIN,
        -1.0,
        -f64::MIN_POSITIVE,
        -0.0,
        0.0,
        f64::MIN_POSITIVE,
        1.0,
        f64::MAX,
        f64::INFINITY,
        f64::NAN,
    ];
    for a in numbers {
        for b in numbers {
            let expected = match a.total_cmp(&b) {
                Ordering::Less => Order::Less,
                Ordering::Equal => Order::Equal,
                Ordering::Greater => Order::Greater,
            };
            let left = Float::from_bits(a.to_bits());
            let right = Float::from_bits(b.to_bits());
            assert_eq!(left.compare(&right), expected);
            assert_eq!(left.equals(&right), a.to_bits() == b.to_bits());
        }
    }
}

#[test]
fn derived_order_agrees_with_the_verified_one() {
    let values = samples();
    for a in &values {
        for b in &values {
            assert_eq!(Some(a.cmp(b)), a.partial_cmp(b));
            assert_eq!(a.cmp(b) == Ordering::Equal, a == b);
            if a == b {
                assert_eq!(hash_of(a), hash_of(b));
            }
        }
    }
}

#[test]
fn order_reverses() {
    assert_eq!(Order::Less.reverse(), Order::Greater);
    assert_eq!(Order::Equal.reverse(), Order::Equal);
    assert_eq!(Order::Greater.reverse(), Order::Less);
    assert!(Order::Less.is_less());
    assert!(!Order::Greater.is_less());
    assert!(Order::Equal.is_equal());
}

#[test]
fn values_sort_by_their_order() {
    let mut values = vec![string("b"), Value::Int(2), float(f64::NAN), Value::Nil, float(0.5), Value::Int(1)];
    values.sort();
    let expected = vec![Value::Nil, Value::Int(1), Value::Int(2), float(0.5), float(f64::NAN), string("b")];
    assert!(values == expected);
}

#[test]
fn strings_keep_their_bytes() {
    let text = Str::new(vec![104, 105, 0, 255]);
    assert_eq!(text.as_bytes(), &[104u8, 105, 0, 255][..]);
    assert_eq!(text.len(), 4);
    let copy = text.copy();
    assert_eq!(copy.as_bytes(), &[104u8, 105, 0, 255][..]);
    assert!(copy == text);
    assert!(text.equals(&copy));
    assert!(!text.equals(&Str::new(vec![104, 105, 0])));
    assert_eq!(Str::new(vec![1, 2]).compare(&Str::new(vec![1, 3])), Order::Less);
    assert_eq!(Str::new(vec![1, 2]).compare(&Str::new(vec![1])), Order::Greater);
    assert_eq!(Str::new(vec![]).compare(&Str::new(vec![])), Order::Equal);
}

#[test]
fn functions_are_compared_by_identity() {
    assert!(Value::from(closure(1)) == Value::from(closure(1)));
    assert!(Value::from(closure(1)) != Value::from(closure(2)));
    assert!(Value::from(RustFun { id: 1 }) != Value::from(RustFun { id: 2 }));
    assert!(Function::Hush(closure(1)).is_hush());
    assert!(!Function::Rust(RustFun { id: 1 }).is_hush());
    assert!(Function::from(closure(3)).copy() == Function::Hush(closure(3)));
    assert!(Function::from(RustFun { id: 1 }) == Function::Rust(RustFun { id: 1 }));
}
