//! The total order of values: what it is, and that it is one.

use vstd::prelude::*;
use crate::runtime::source::SourcePos;
use crate::symbol::Symbol;
use super::float::rank_of_bits;
use super::function::Function;
use super::ValueView;

verus! {

/// How one thing stands to another in a total order.
#[derive(Debug, Clone, Copy, PartialEq, Eq, Structural)]
pub enum Order {
    Less,
    Equal,
    Greater,
}

impl Order {
    /// The same comparison, seen from the other side.
    pub open spec fn flip(self) -> Order {
        match self {
            Order::Less => Order::Greater,
            Order::Equal => Order::Equal,
            Order::Greater => Order::Less,
        }
    }

    /// This comparison where it decides, else `next`.
    pub open spec fn refine(self, next: Order) -> Order {
        if self is Equal {
            next
        } else {
            self
        }
    }
}

/// The order of the integers.
pub open spec fn int_order(a: int, b: int) -> Order {
    if a < b {
        Order::Less
    } else if a == b {
        Order::Equal
    } else {
        Order::Greater
    }
}

/// The first index from `from` on at which two sequences part: where one of
/// them ends, or where their items differ.
pub open spec fn parting_from<T>(a: Seq<T>, b: Seq<T>, from: int) -> int
    decreases a.len() - from,
{
    if from >= a.len() || from >= b.len() || a[from] != b[from] {
        from
    } else {
        parting_from(a, b, from + 1)
    }
}

/// The first index at which two sequences part.
pub open spec fn parting<T>(a: Seq<T>, b: Seq<T>) -> int {
    parting_from(a, b, 0)
}

/// Whether `at` is where `a` and `b` part: they agree before it, and at it one
/// of them ends or they differ.
pub open spec fn parts_at<T>(a: Seq<T>, b: Seq<T>, at: int) -> bool {
    &&& 0 <= at <= a.len()
    &&& at <= b.len()
    &&& forall|i: int| 0 <= i < at ==> a[i] == b[i]
    &&& at < a.len() && at < b.len() ==> a[at] != b[at]
}

/// Sequences that agree up to `from` part at `parting_from(a, b, from)`.
pub proof fn lemma_parting_from<T>(a: Seq<T>, b: Seq<T>, from: int)
    requires
        0 <= from <= a.len(),
        from <= b.len(),
        forall|i: int| 0 <= i < from ==> a[i] == b[i],
    ensures
        from <= parting_from(a, b, from),
        parts_at(a, b, parting_from(a, b, from)),
    decreases a.len() - from,
{
    if from >= a.len() || from >= b.len() || a[from] != b[from] {
    } else {
        lemma_parting_from(a, b, from + 1);
    }
}

/// Two sequences part at `parting(a, b)`.
pub proof fn lemma_parting<T>(a: Seq<T>, b: Seq<T>)
    ensures
        parts_at(a, b, parting(a, b)),
{
    lemma_parting_from(a, b, 0);
}

/// Two sequences part at one index only.
pub proof fn lemma_parting_unique<T>(a: Seq<T>, b: Seq<T>, at: int)
    requires
        parts_at(a, b, at),
    ensures
        parting(a, b) == at,
{
    lemma_parting(a, b);
    let found = parting(a, b);
    if found < at {
        assert(a[found] == b[found]);
    } else if at < found {
        assert(a[at] == b[at]);
    }
}

/// Where `a` parts from `b`, `b` parts from `a`; and a sequence parts from
/// itself at its end.
pub proof fn lemma_parting_symmetric<T>(a: Seq<T>, b: Seq<T>)
    ensures
        parting(b, a) == parting(a, b),
        parting(a, a) == a.len(),
{
    lemma_parting(a, b);
    lemma_parting_unique(b, a, parting(a, b));
    lemma_parting_unique(a, a, a.len() as int);
}

/// The lexicographic order of two sequences whose items `of` orders: the order
/// of the first items that differ, or, where one sequence is the start of the
/// other, the shorter one first.
pub open spec fn lex<T>(a: Seq<T>, b: Seq<T>, of: spec_fn(T, T) -> Order) -> Order {
    let at = parting(a, b);
    if at < a.len() && at < b.len() {
        of(a[at], b[at])
    } else {
        int_order(a.len() as int, b.len() as int)
    }
}

/// Sequences are equal in the lexicographic order just when they are equal,
/// if that holds of the items at which they part.
pub proof fn lemma_lex_equal<T>(a: Seq<T>, b: Seq<T>, of: spec_fn(T, T) -> Order)
    requires
        ({
            let at = parting(a, b);
            at < a.len() && at < b.len() ==> (of(a[at], b[at]) is Equal <==> a[at] == b[at])
        }),
    ensures
        lex(a, b, of) is Equal <==> a == b,
{
    lemma_parting(a, b);
    lemma_parting_symmetric(a, b);
    if lex(a, b, of) is Equal {
        assert(a =~= b);
    }
}

/// Seen from the other side the lexicographic order is flipped, if that holds
/// of the items at which the sequences part.
pub proof fn lemma_lex_flip<T>(a: Seq<T>, b: Seq<T>, of: spec_fn(T, T) -> Order)
    requires
        ({
            let at = parting(a, b);
            at < a.len() && at < b.len() ==> of(b[at], a[at]) == of(a[at], b[at]).flip()
        }),
    ensures
        lex(b, a, of) == lex(a, b, of).flip(),
{
    lemma_parting_symmetric(a, b);
}

/// The lexicographic order is transitive, if the order of the items is, and
/// tells equal items from others, at the first index at which any two of the
/// three sequences part.
pub proof fn lemma_lex_transitive<T>(
    a: Seq<T>,
    b: Seq<T>,
    c: Seq<T>,
    of: spec_fn(T, T) -> Order,
)
    requires
        lex(a, b, of) is Less,
        lex(b, c, of) is Less,
        ({
            let at = if parting(a, b) <= parting(b, c) {
                parting(a, b)
            } else {
                parting(b, c)
            };
            at < a.len() && at < b.len() && at < c.len() ==> {
                &&& of(a[at], b[at]) is Equal <==> a[at] == b[at]
                &&& of(b[at], c[at]) is Equal <==> b[at] == c[at]
                &&& of(a[at], c[at]) is Equal <==> a[at] == c[at]
                &&& of(a[at], b[at]) is Less && of(b[at], c[at]) is Less ==> of(a[at], c[at]) is Less
            }
        }),
    ensures
        lex(a, c, of) is Less,
{
    lemma_parting(a, b);
    lemma_parting(b, c);
    let first = parting(a, b);
    let second = parting(b, c);
    let at = if first <= second {
        first
    } else {
        second
    };
    assert forall|i: int| 0 <= i < at implies a[i] == c[i] by {
        assert(a[i] == b[i]);
        assert(b[i] == c[i]);
    }
    if at < a.len() && at < c.len() {
        if first < second {
            assert(b[at] == c[at]);
        } else if second < first {
            assert(a[at] == b[at]);
        }
    }
    lemma_parting_unique(a, c, at);
}

/// The order of the truth values: `false` first.
pub open spec fn bool_order(a: bool, b: bool) -> Order {
    int_order(if a { 1int } else { 0int }, if b { 1int } else { 0int })
}

/// The order of byte strings: lexicographic, byte by byte.
pub open spec fn bytes_order(a: Seq<u8>, b: Seq<u8>) -> Order {
    lex(a, b, |x: u8, y: u8| int_order(x as int, y as int))
}

/// The order of source positions: by file, then line, then column.
pub open spec fn pos_order(a: SourcePos, b: SourcePos) -> Order {
    int_order(a.path@, b.path@).refine(int_order(a.line as int, b.line as int)).refine(
        int_order(a.column as int, b.column as int),
    )
}

/// The order of functions: closures before host functions; closures by the
/// number of their parameters, then body, environment and position; host
/// functions by their number.
pub open spec fn function_order(a: Function, b: Function) -> Order {
    match (a, b) {
        (Function::Hush(f), Function::Hush(g)) => int_order(f.params as int, g.params as int).refine(
            int_order(f.body as int, g.body as int),
        ).refine(int_order(f.env as int, g.env as int)).refine(pos_order(f.pos, g.pos)),
        (Function::Hush(_), Function::Rust(_)) => Order::Less,
        (Function::Rust(_), Function::Hush(_)) => Order::Greater,
        (Function::Rust(f), Function::Rust(g)) => int_order(f.id as int, g.id as int),
    }
}

/// The place of a value's kind among the kinds.
pub open spec fn kind(value: ValueView) -> int {
    match value {
        ValueView::Nil => 0,
        ValueView::Bool(_) => 1,
        ValueView::Int(_) => 2,
        ValueView::Float(_) => 3,
        ValueView::Byte(_) => 4,
        ValueView::String(_) => 5,
        ValueView::Array(_) => 6,
        ValueView::Dict(_) => 7,
        ValueView::Function(_) => 8,
        ValueView::Error(_) => 9,
    }
}

/// The total order of values.
///
/// Values of different kinds stand in the order of their kinds: nil, truth
/// values, integers, floats, bytes, strings, arrays, dictionaries, functions,
/// errors. Within a kind: `false` before `true`; integers and bytes by size;
/// floats as IEEE 754 orders all bit patterns; strings, arrays, dictionaries
/// and errors lexicographically, an entry by its key and then its value;
/// functions by [`function_order`].
pub open spec fn order(a: ValueView, b: ValueView) -> Order
    decreases a,
{
    match (a, b) {
        (ValueView::Nil, ValueView::Nil) => Order::Equal,
        (ValueView::Bool(x), ValueView::Bool(y)) => bool_order(x, y),
        (ValueView::Int(x), ValueView::Int(y)) => int_order(x as int, y as int),
        (ValueView::Float(x), ValueView::Float(y)) => int_order(rank_of_bits(x), rank_of_bits(y)),
        (ValueView::Byte(x), ValueView::Byte(y)) => int_order(x as int, y as int),
        (ValueView::String(x), ValueView::String(y)) => bytes_order(x, y),
        (ValueView::Array(x), ValueView::Array(y)) => {
            let at = parting(x, y);
            if 0 <= at < x.len() && at < y.len() {
                order(x[at], y[at])
            } else {
                int_order(x.len() as int, y.len() as int)
            }
        },
        (ValueView::Dict(x), ValueView::Dict(y)) => {
            let at = parting(x, y);
            if 0 <= at < x.len() && at < y.len() {
                entry_order(x[at], y[at])
            } else {
                int_order(x.len() as int, y.len() as int)
            }
        },
        (ValueView::Function(f), ValueView::Function(g)) => function_order(f, g),
        (ValueView::Error(x), ValueView::Error(y)) => {
            let at = parting(x, y);
            if 0 <= at < x.len() && at < y.len() {
                field_order(x[at], y[at])
            } else {
                int_order(x.len() as int, y.len() as int)
            }
        },
        _ => int_order(kind(a), kind(b)),
    }
}

/// The order of dictionary entries: by key, then by value.
pub open spec fn entry_order(a: (ValueView, ValueView), b: (ValueView, ValueView)) -> Order
    decreases a,
{
    order(a.0, b.0).refine(order(a.1, b.1))
}

/// The order of error fields: by symbol, then by value.
pub open spec fn field_order(a: (Symbol, ValueView), b: (Symbol, ValueView)) -> Order
    decreases a,
{
    int_order(a.0@, b.0@).refine(order(a.1, b.1))
}

/// Whether `a` stands before `b`.
pub open spec fn less(a: ValueView, b: ValueView) -> bool {
    order(a, b) is Less
}

/// Byte strings are equal in their order just when they are equal.
pub proof fn lemma_bytes_order_equal(a: Seq<u8>, b: Seq<u8>)
    ensures
        bytes_order(a, b) is Equal <==> a == b,
{
    lemma_lex_equal(a, b, |x: u8, y: u8| int_order(x as int, y as int));
}

/// Seen from the other side the order of byte strings is flipped.
pub proof fn lemma_bytes_order_flip(a: Seq<u8>, b: Seq<u8>)
    ensures
        bytes_order(b, a) == bytes_order(a, b).flip(),
{
    lemma_lex_flip(a, b, |x: u8, y: u8| int_order(x as int, y as int));
}

/// The order of byte strings is transitive.
pub proof fn lemma_bytes_order_transitive(a: Seq<u8>, b: Seq<u8>, c: Seq<u8>)
    requires
        bytes_order(a, b) is Less,
        bytes_order(b, c) is Less,
    ensures
        bytes_order(a, c) is Less,
{
    lemma_lex_transitive(a, b, c, |x: u8, y: u8| int_order(x as int, y as int));
}

/// Functions are equal in their order just when they are equal.
pub proof fn lemma_function_order_equal(a: Function, b: Function)
    ensures
        function_order(a, b) is Equal <==> a == b,
{
}

/// Values are equal in the order just when they are equal.
pub proof fn lemma_order_equal(a: ValueView, b: ValueView)
    ensures
        order(a, b) is Equal <==> a == b,
    decreases a,
{
    match (a, b) {
        (ValueView::Float(x), ValueView::Float(y)) => {
            if rank_of_bits(x) == rank_of_bits(y) {
                super::float::lemma_rank_of_bits_injective(x, y);
            }
        },
        (ValueView::String(x), ValueView::String(y)) => {
            lemma_bytes_order_equal(x, y);
        },
        (ValueView::Array(x), ValueView::Array(y)) => {
            lemma_parting(x, y);
            let at = parting(x, y);
            if at < x.len() && at < y.len() {
                lemma_order_equal(x[at], y[at]);
            }
            let of = |p: ValueView, q: ValueView| order(p, q);
            lemma_lex_equal(x, y, of);
            assert(lex(x, y, of) == order(a, b));
        },
        (ValueView::Dict(x), ValueView::Dict(y)) => {
            lemma_parting(x, y);
            let at = parting(x, y);
            if at < x.len() && at < y.len() {
                lemma_entry_order_equal(x[at], y[at]);
            }
            let of = |p: (ValueView, ValueView), q: (ValueView, ValueView)| entry_order(p, q);
            lemma_lex_equal(x, y, of);
            assert(lex(x, y, of) == order(a, b));
        },
        (ValueView::Function(f), ValueView::Function(g)) => {
            lemma_function_order_equal(f, g);
        },
        (ValueView::Error(x), ValueView::Error(y)) => {
            lemma_parting(x, y);
            let at = parting(x, y);
            if at < x.len() && at < y.len() {
                lemma_field_order_equal(x[at], y[at]);
            }
            let of = |p: (Symbol, ValueView), q: (Symbol, ValueView)| field_order(p, q);
            lemma_lex_equal(x, y, of);
            assert(lex(x, y, of) == order(a, b));
        },
        _ => {},
    }
}

/// Entries are equal in their order just when they are equal.
pub proof fn lemma_entry_order_equal(a: (ValueView, ValueView), b: (ValueView, ValueView))
    ensures
        entry_order(a, b) is Equal <==> a == b,
    decreases a,
{
    lemma_order_equal(a.0, b.0);
    lemma_order_equal(a.1, b.1);
}

/// Fields are equal in their order just when they are equal.
pub proof fn lemma_field_order_equal(a: (Symbol, ValueView), b: (Symbol, ValueView))
    ensures
        field_order(a, b) is Equal <==> a == b,
    decreases a,
{
    lemma_order_equal(a.1, b.1);
}

/// Seen from the other side the order of values is flipped: `b` stands to `a`
/// as `a` does not stand to `b`.
pub proof fn lemma_order_flip(a: ValueView, b: ValueView)
    ensures
        order(b, a) == order(a, b).flip(),
    decreases a,
{
    match (a, b) {
        (ValueView::String(x), ValueView::String(y)) => {
            lemma_bytes_order_flip(x, y);
        },
        (ValueView::Array(x), ValueView::Array(y)) => {
            lemma_parting(x, y);
            lemma_parting_symmetric(x, y);
            let at = parting(x, y);
            if at < x.len() && at < y.len() {
                lemma_order_flip(x[at], y[at]);
            }
            let of = |p: ValueView, q: ValueView| order(p, q);
            lemma_lex_flip(x, y, of);
            assert(lex(x, y, of) == order(a, b));
            assert(lex(y, x, of) == order(b, a));
        },
        (ValueView::Dict(x), ValueView::Dict(y)) => {
            lemma_parting(x, y);
            lemma_parting_symmetric(x, y);
            let at = parting(x, y);
            if at < x.len() && at < y.len() {
                lemma_entry_order_flip(x[at], y[at]);
            }
            let of = |p: (ValueView, ValueView), q: (ValueView, ValueView)| entry_order(p, q);
            lemma_lex_flip(x, y, of);
            assert(lex(x, y, of) == order(a, b));
            assert(lex(y, x, of) == order(b, a));
        },
        (ValueView::Error(x), ValueView::Error(y)) => {
            lemma_parting(x, y);
            lemma_parting_symmetric(x, y);
            let at = parting(x, y);
            if at < x.len() && at < y.len() {
                lemma_field_order_flip(x[at], y[at]);
            }
            let of = |p: (Symbol, ValueView), q: (Symbol, ValueView)| field_order(p, q);
            lemma_lex_flip(x, y, of);
            assert(lex(x, y, of) == order(a, b));
            assert(lex(y, x, of) == order(b, a));
        },
        _ => {},
    }
}

/// Seen from the other side the order of entries is flipped.
pub proof fn lemma_entry_order_flip(a: (ValueView, ValueView), b: (ValueView, ValueView))
    ensures
        entry_order(b, a) == entry_order(a, b).flip(),
    decreases a,
{
    lemma_order_flip(a.0, b.0);
    lemma_order_flip(a.1, b.1);
}

/// Seen from the other side the order of fields is flipped.
pub proof fn lemma_field_order_flip(a: (Symbol, ValueView), b: (Symbol, ValueView))
    ensures
        field_order(b, a) == field_order(a, b).flip(),
    decreases a,
{
    lemma_order_flip(a.1, b.1);
}

/// The order of functions is transitive.
pub proof fn lemma_function_order_transitive(a: Function, b: Function, c: Function)
    requires
        function_order(a, b) is Less,
        function_order(b, c) is Less,
    ensures
        function_order(a, c) is Less,
{
}

/// Values of different kinds stand in the order of their kinds.
pub proof fn lemma_order_of_kinds(a: ValueView, b: ValueView)
    ensures
        kind(a) != kind(b) ==> order(a, b) == int_order(kind(a), kind(b)),
        order(a, b) is Equal ==> kind(a) == kind(b),
{
}

/// The order of values is transitive: what stands before a value stands
/// before all that the value stands before.
pub proof fn lemma_order_transitive(a: ValueView, b: ValueView, c: ValueView)
    requires
        order(a, b) is Less,
        order(b, c) is Less,
    ensures
        order(a, c) is Less,
    decreases a, 1int,
{
    lemma_order_of_kinds(a, b);
    lemma_order_of_kinds(b, c);
    lemma_order_of_kinds(a, c);
    if kind(a) == kind(b) && kind(b) == kind(c) {
        match a {
            ValueView::String(x) => {
                lemma_bytes_order_transitive(x, b->String_0, c->String_0);
            },
            ValueView::Array(x) => {
                lemma_arrays_transitive(x, b->Array_0, c->Array_0);
            },
            ValueView::Dict(x) => {
                lemma_dicts_transitive(x, b->Dict_0, c->Dict_0);
            },
            ValueView::Function(f) => {
                lemma_function_order_transitive(f, b->Function_0, c->Function_0);
            },
            ValueView::Error(x) => {
                lemma_errors_transitive(x, b->Error_0, c->Error_0);
            },
            _ => {},
        }
    }
}

/// The order of arrays is transitive.
proof fn lemma_arrays_transitive(x: Seq<ValueView>, y: Seq<ValueView>, z: Seq<ValueView>)
    requires
        order(ValueView::Array(x), ValueView::Array(y)) is Less,
        order(ValueView::Array(y), ValueView::Array(z)) is Less,
    ensures
        order(ValueView::Array(x), ValueView::Array(z)) is Less,
    decreases x, 0int,
{
    lemma_parting(x, y);
    lemma_parting(y, z);
    lemma_parting(x, z);
    let at = if parting(x, y) <= parting(y, z) {
        parting(x, y)
    } else {
        parting(y, z)
    };
    if at < x.len() && at < y.len() && at < z.len() {
        lemma_order_equal(x[at], y[at]);
        lemma_order_equal(y[at], z[at]);
        lemma_order_equal(x[at], z[at]);
        if order(x[at], y[at]) is Less && order(y[at], z[at]) is Less {
            lemma_order_transitive(x[at], y[at], z[at]);
        }
    }
    let of = |p: ValueView, q: ValueView| order(p, q);
    assert(lex(x, y, of) == order(ValueView::Array(x), ValueView::Array(y)));
    assert(lex(y, z, of) == order(ValueView::Array(y), ValueView::Array(z)));
    lemma_lex_transitive(x, y, z, of);
    assert(lex(x, z, of) == order(ValueView::Array(x), ValueView::Array(z)));
}

/// The order of dictionaries is transitive.
proof fn lemma_dicts_transitive(
    x: Seq<(ValueView, ValueView)>,
    y: Seq<(ValueView, ValueView)>,
    z: Seq<(ValueView, ValueView)>,
)
    requires
        order(ValueView::Dict(x), ValueView::Dict(y)) is Less,
        order(ValueView::Dict(y), ValueView::Dict(z)) is Less,
    ensures
        order(ValueView::Dict(x), ValueView::Dict(z)) is Less,
    decreases x, 0int,
{
    lemma_parting(x, y);
    lemma_parting(y, z);
    lemma_parting(x, z);
    let at = if parting(x, y) <= parting(y, z) {
        parting(x, y)
    } else {
        parting(y, z)
    };
    if at < x.len() && at < y.len() && at < z.len() {
        lemma_entry_order_equal(x[at], y[at]);
        lemma_entry_order_equal(y[at], z[at]);
        lemma_entry_order_equal(x[at], z[at]);
        if entry_order(x[at], y[at]) is Less && entry_order(y[at], z[at]) is Less {
            lemma_entry_order_transitive(x[at], y[at], z[at]);
        }
    }
    let of = |p: (ValueView, ValueView), q: (ValueView, ValueView)| entry_order(p, q);
    assert(lex(x, y, of) == order(ValueView::Dict(x), ValueView::Dict(y)));
    assert(lex(y, z, of) == order(ValueView::Dict(y), ValueView::Dict(z)));
    lemma_lex_transitive(x, y, z, of);
    assert(lex(x, z, of) == order(ValueView::Dict(x), ValueView::Dict(z)));
}

/// The order of errors is transitive.
proof fn lemma_errors_transitive(
    x: Seq<(Symbol, ValueView)>,
    y: Seq<(Symbol, ValueView)>,
    z: Seq<(Symbol, ValueView)>,
)
    requires
        order(ValueView::Error(x), ValueView::Error(y)) is Less,
        order(ValueView::Error(y), ValueView::Error(z)) is Less,
    ensures
        order(ValueView::Error(x), ValueView::Error(z)) is Less,
    decreases x, 0int,
{
    lemma_parting(x, y);
    lemma_parting(y, z);
    lemma_parting(x, z);
    let at = if parting(x, y) <= parting(y, z) {
        parting(x, y)
    } else {
        parting(y, z)
    };
    if at < x.len() && at < y.len() && at < z.len() {
        lemma_field_order_equal(x[at], y[at]);
        lemma_field_order_equal(y[at], z[at]);
        lemma_field_order_equal(x[at], z[at]);
        if field_order(x[at], y[at]) is Less && field_order(y[at], z[at]) is Less {
            lemma_field_order_transitive(x[at], y[at], z[at]);
        }
    }
    let of = |p: (Symbol, ValueView), q: (Symbol, ValueView)| field_order(p, q);
    assert(lex(x, y, of) == order(ValueView::Error(x), ValueView::Error(y)));
    assert(lex(y, z, of) == order(ValueView::Error(y), ValueView::Error(z)));
    lemma_lex_transitive(x, y, z, of);
    assert(lex(x, z, of) == order(ValueView::Error(x), ValueView::Error(z)));
}

/// The order of entries is transitive.
pub proof fn lemma_entry_order_transitive(
    a: (ValueView, ValueView),
    b: (ValueView, ValueView),
    c: (ValueView, ValueView),
)
    requires
        entry_order(a, b) is Less,
        entry_order(b, c) is Less,
    ensures
        entry_order(a, c) is Less,
    decreases a, 2int,
{
    lemma_order_equal(a.0, b.0);
    lemma_order_equal(b.0, c.0);
    lemma_order_equal(a.0, c.0);
    if order(a.0, b.0) is Less && order(b.0, c.0) is Less {
        lemma_order_transitive(a.0, b.0, c.0);
    }
    if order(a.1, b.1) is Less && order(b.1, c.1) is Less {
        lemma_order_transitive(a.1, b.1, c.1);
    }
}

/// The order of fields is transitive.
pub proof fn lemma_field_order_transitive(
    a: (Symbol, ValueView),
    b: (Symbol, ValueView),
    c: (Symbol, ValueView),
)
    requires
        field_order(a, b) is Less,
        field_order(b, c) is Less,
    ensures
        field_order(a, c) is Less,
    decreases a, 2int,
{
    if order(a.1, b.1) is Less && order(b.1, c.1) is Less {
        lemma_order_transitive(a.1, b.1, c.1);
    }
}

/// The order is total: of two values exactly one stands before the other, or
/// they are one value. This holds of floats of every bit pattern, the NaNs
/// among them.
pub proof fn lemma_order_total(a: ValueView, b: ValueView)
    ensures
        less(a, b) || a == b || less(b, a),
        !(less(a, b) && a == b),
        !(less(a, b) && less(b, a)),
        !(a == b && less(b, a)),
{
    lemma_order_equal(a, b);
    lemma_order_flip(a, b);
}

impl Order {
    /// The same comparison, seen from the other side.
    pub fn reverse(self) -> (flipped: Order)
        ensures
            flipped == self.flip(),
    {
        match self {
            Order::Less => Order::Greater,
            Order::Equal => Order::Equal,
            Order::Greater => Order::Less,
        }
    }

    /// Whether the comparison found the first before the second.
    pub fn is_less(self) -> (less: bool)
        ensures
            less == (self is Less),
    {
        match self {
            Order::Less => true,
            _ => false,
        }
    }

    /// Whether the comparison found the two equal.
    pub fn is_equal(self) -> (equal: bool)
        ensures
            equal == (self is Equal),
    {
        match self {
            Order::Equal => true,
            _ => false,
        }
    }
}

/// Compares two integers.
pub fn compare_ints(a: i128, b: i128) -> (found: Order)
    ensures
        found == int_order(a as int, b as int),
{
    if a < b {
        Order::Less
    } else if a == b {
        Order::Equal
    } else {
        Order::Greater
    }
}

/// Compares two byte strings, byte by byte.
pub fn compare_bytes(a: &[u8], b: &[u8]) -> (found: Order)
    ensures
        found == bytes_order(a@, b@),
{
    let mut at: usize = 0;
    while at < a.len() && at < b.len()
        invariant
            at <= a.len(),
            at <= b.len(),
            forall|i: int| 0 <= i < at ==> a@[i] == b@[i],
        decreases a.len() - at,
    {
        if a[at] != b[at] {
            proof {
                lemma_parting_unique(a@, b@, at as int);
            }
            return compare_ints(a[at] as i128, b[at] as i128);
        }
        at = at + 1;
    }
    proof {
        lemma_parting_unique(a@, b@, at as int);
    }
    compare_ints(a.len() as i128, b.len() as i128)
}

/// Compares two source positions.
pub fn compare_positions(a: &SourcePos, b: &SourcePos) -> (found: Order)
    ensures
        found == pos_order(*a, *b),
{
    let by_path = compare_ints(a.path.id() as i128, b.path.id() as i128);
    if !by_path.is_equal() {
        return by_path;
    }
    let by_line = compare_ints(a.line as i128, b.line as i128);
    if !by_line.is_equal() {
        return by_line;
    }
    compare_ints(a.column as i128, b.column as i128)
}

/// Compares two functions.
pub fn compare_functions(a: &Function, b: &Function) -> (found: Order)
    ensures
        found == function_order(*a, *b),
{
    match (a, b) {
        (Function::Hush(f), Function::Hush(g)) => {
            let by_params = compare_ints(f.params as i128, g.params as i128);
            if !by_params.is_equal() {
                return by_params;
            }
            let by_body = compare_ints(f.body as i128, g.body as i128);
            if !by_body.is_equal() {
                return by_body;
            }
            let by_env = compare_ints(f.env as i128, g.env as i128);
            if !by_env.is_equal() {
                return by_env;
            }
            compare_positions(&f.pos, &g.pos)
        },
        (Function::Hush(_), Function::Rust(_)) => Order::Less,
        (Function::Rust(_), Function::Hush(_)) => Order::Greater,
        (Function::Rust(f), Function::Rust(g)) => compare_ints(f.id as i128, g.id as i128),
    }
}

} // verus!
