//! Errors as values.

use vstd::prelude::*;
use crate::symbol::{Symbol, CAUSE, MESSAGE};
use super::string::Str;
use super::order::{
    compare_ints, field_order, lemma_field_order_equal, lemma_order_equal, lemma_parting_unique,
    order, Order,
};
use super::Value;
use super::ValueView;

verus! {

/// Whether the symbols of `fields` rise strictly, so that no symbol stands
/// twice.
pub open spec fn rising(fields: Seq<(Symbol, ValueView)>) -> bool {
    forall|i: int, j: int| 0 <= i < j < fields.len() ==> fields[i].0@ < fields[j].0@
}

/// The first index from `from` on whose symbol does not stand before `symbol`.
pub open spec fn place_from(fields: Seq<(Symbol, ValueView)>, symbol: Symbol, from: int) -> int
    decreases fields.len() - from,
{
    if from >= fields.len() || fields[from].0@ >= symbol@ {
        from
    } else {
        place_from(fields, symbol, from + 1)
    }
}

/// The place of `symbol` among rising fields: the index of the first field
/// whose symbol does not stand before it.
pub open spec fn place(fields: Seq<(Symbol, ValueView)>, symbol: Symbol) -> int {
    place_from(fields, symbol, 0)
}

/// Whether `at` is the place of `symbol` among `fields`.
pub open spec fn is_place(fields: Seq<(Symbol, ValueView)>, symbol: Symbol, at: int) -> bool {
    &&& 0 <= at <= fields.len()
    &&& forall|i: int| 0 <= i < at ==> (#[trigger] fields[i]).0@ < symbol@
    &&& at < fields.len() ==> fields[at].0@ >= symbol@
}

/// The value that rising fields hold under `symbol`, if any.
pub open spec fn field(fields: Seq<(Symbol, ValueView)>, symbol: Symbol) -> Option<ValueView> {
    let at = place(fields, symbol);
    if at < fields.len() && fields[at].0 == symbol {
        Some(fields[at].1)
    } else {
        None
    }
}

/// Rising fields with `value` under `symbol`: in the place of the field of
/// that symbol if there is one, else as a new field where it belongs.
pub open spec fn with_field(fields: Seq<(Symbol, ValueView)>, symbol: Symbol, value: ValueView) -> Seq<
    (Symbol, ValueView),
> {
    let at = place(fields, symbol);
    if at < fields.len() && fields[at].0 == symbol {
        fields.update(at, (symbol, value))
    } else {
        fields.insert(at, (symbol, value))
    }
}

/// Whether the fields are those of an error: rising, and the first of them the
/// message.
pub open spec fn well_formed(fields: Seq<(Symbol, ValueView)>) -> bool {
    &&& rising(fields)
    &&& fields.len() > 0
    &&& fields[0].0@ == MESSAGE
}

/// `place_from` finds the place of `symbol`, if all fields before `from` stand
/// before it.
pub proof fn lemma_place_from(fields: Seq<(Symbol, ValueView)>, symbol: Symbol, from: int)
    requires
        0 <= from <= fields.len(),
        forall|i: int| 0 <= i < from ==> (#[trigger] fields[i]).0@ < symbol@,
    ensures
        is_place(fields, symbol, place_from(fields, symbol, from)),
    decreases fields.len() - from,
{
    if from >= fields.len() || fields[from].0@ >= symbol@ {
    } else {
        lemma_place_from(fields, symbol, from + 1);
    }
}

/// `place` is the place of `symbol`, and the only one.
pub proof fn lemma_place(fields: Seq<(Symbol, ValueView)>, symbol: Symbol, at: int)
    ensures
        is_place(fields, symbol, place(fields, symbol)),
        is_place(fields, symbol, at) ==> at == place(fields, symbol),
{
    lemma_place_from(fields, symbol, 0);
    let found = place(fields, symbol);
    if is_place(fields, symbol, at) {
        if at < found {
            assert(fields[at].0@ < symbol@);
        } else if found < at {
            assert(fields[found].0@ < symbol@);
        }
    }
}

/// Among rising fields, a symbol gives a value just when some field has it,
/// and then the value of that field.
pub proof fn lemma_field(fields: Seq<(Symbol, ValueView)>, symbol: Symbol)
    requires
        rising(fields),
    ensures
        forall|i: int|
            0 <= i < fields.len() && (#[trigger] fields[i]).0 == symbol ==> field(fields, symbol)
                == Some(fields[i].1),
        field(fields, symbol) is Some ==> exists|i: int|
            0 <= i < fields.len() && (#[trigger] fields[i]).0 == symbol,
{
    lemma_place(fields, symbol, 0);
    let at = place(fields, symbol);
    assert forall|i: int| 0 <= i < fields.len() && (#[trigger] fields[i]).0 == symbol implies i
        == at by {
        if at < i {
            assert(fields[at].0@ < fields[i].0@);
        }
    }
    if field(fields, symbol) is Some {
        assert(fields[at].0 == symbol);
    }
}

/// Setting a field keeps the fields those of an error, makes the symbol give
/// that value, and leaves what every other symbol gives as it was.
pub proof fn lemma_with_field(
    fields: Seq<(Symbol, ValueView)>,
    symbol: Symbol,
    value: ValueView,
    other: Symbol,
)
    requires
        well_formed(fields),
    ensures
        well_formed(with_field(fields, symbol, value)),
        field(with_field(fields, symbol, value), symbol) == Some(value),
        other != symbol ==> field(with_field(fields, symbol, value), other) == field(fields, other),
{
    lemma_place(fields, symbol, 0);
    lemma_field(fields, symbol);
    let at = place(fields, symbol);
    let held = at < fields.len() && fields[at].0 == symbol;
    let after = with_field(fields, symbol, value);
    let back = |i: int|
        if held || i < at {
            i
        } else {
            i - 1
        };
    assert forall|i: int, j: int| 0 <= i < j < after.len() implies after[i].0@ < after[j].0@ by {
        if held {
            assert(fields[i].0@ < fields[j].0@);
        } else if j == at {
            assert(fields[i].0@ < symbol@);
        } else if i == at {
            if at < j - 1 {
                assert(fields[at].0@ < fields[j - 1].0@);
            }
        } else {
            assert(fields[back(i)].0@ < fields[back(j)].0@);
        }
    }
    if at == 0 && !held {
        assert(fields[0].0@ >= symbol@);
    }
    assert(after[at].0 == symbol);
    lemma_field(after, symbol);
    if other != symbol {
        lemma_field(fields, other);
        lemma_field(after, other);
        if field(fields, other) is Some {
            let i = choose|i: int| 0 <= i < fields.len() && (#[trigger] fields[i]).0 == other;
            let to = if held || i < at {
                i
            } else {
                i + 1
            };
            assert(after[to] == fields[i]);
        } else if field(after, other) is Some {
            let i = choose|i: int| 0 <= i < after.len() && (#[trigger] after[i]).0 == other;
            assert(after[i] == fields[back(i)]);
            assert(false);
        }
    }
}

/// A failure that a script can hold, pass on and look into: fields named by
/// symbols, the message among them.
#[derive(Debug, Hash, PartialOrd, Ord)]
pub struct Error {
    pub(crate) fields: Vec<(Symbol, Value)>,
}

impl View for Error {
    type V = Seq<(Symbol, ValueView)>;

    /// The fields, symbol and value, in the order of their symbols.
    closed spec fn view(&self) -> Seq<(Symbol, ValueView)>
        decreases self,
    {
        Seq::new(
            self.fields@.len(),
            |i: int|
                if 0 <= i < self.fields@.len() {
                    (self.fields@[i].0, self.fields@[i].1@)
                } else {
                    (arbitrary(), ValueView::Nil)
                },
        )
    }
}

/// What the fields are, each value apart from how it is stored.
pub open spec fn shown(fields: Seq<(Symbol, Value)>) -> Seq<(Symbol, ValueView)> {
    Seq::new(fields.len(), |i: int| (fields[i].0, fields[i].1@))
}

/// The place of `symbol` among `fields`.
fn find(fields: &Vec<(Symbol, Value)>, symbol: Symbol) -> (at: usize)
    ensures
        at == place(shown(fields@), symbol),
        at <= fields@.len(),
{
    let mut at: usize = 0;
    while at < fields.len()
        invariant
            at <= fields.len(),
            place(shown(fields@), symbol) == place_from(shown(fields@), symbol, at as int),
        decreases fields.len() - at,
    {
        if fields[at].0.id() >= symbol.id() {
            return at;
        }
        at = at + 1;
    }
    at
}

impl Error {
    #[verifier::type_invariant]
    spec fn is_well_formed(&self) -> bool {
        well_formed(self@)
    }

    /// What the error holds is what its fields are.
    proof fn lemma_view(&self)
        ensures
            self@ == shown(self.fields@),
    {
        assert(self@ =~= shown(self.fields@));
    }

    /// The error with the given message and nothing else.
    pub fn new(message: Str) -> (error: Error)
        ensures
            error@ == seq![(Symbol::message_spec(), ValueView::String(message@))],
            well_formed(error@),
    {
        let mut fields: Vec<(Symbol, Value)> = Vec::new();
        fields.push((Symbol::message(), Value::String(message)));
        proof {
            let made = Error { fields };
            made.lemma_view();
            assert(made@ =~= seq![(Symbol::message_spec(), ValueView::String(message@))]);
        }
        Error { fields }
    }

    /// The number of fields, the message among them.
    pub fn len(&self) -> (len: usize)
        ensures
            len == self@.len(),
            well_formed(self@),
    {
        proof {
            use_type_invariant(self);
        }
        self.fields.len()
    }

    /// The value under `symbol`, if the error has such a field.
    pub fn get(&self, symbol: Symbol) -> (value: Option<&Value>)
        ensures
            match value {
                Some(found) => field(self@, symbol) == Some(found@),
                None => field(self@, symbol) is None,
            },
    {
        proof {
            self.lemma_view();
        }
        let at = find(&self.fields, symbol);
        if at < self.fields.len() && self.fields[at].0 == symbol {
            Some(&self.fields[at].1)
        } else {
            None
        }
    }

    /// The message of the error.
    pub fn message(&self) -> (message: &Value)
        ensures
            field(self@, Symbol::message_spec()) == Some(message@),
            message@ == self@[0].1,
    {
        proof {
            use_type_invariant(self);
            self.lemma_view();
            lemma_field(self@, Symbol::message_spec());
        }
        &self.fields[0].1
    }

    /// The cause of the error, if one was recorded.
    pub fn cause(&self) -> (cause: Option<&Value>)
        ensures
            match cause {
                Some(found) => field(self@, Symbol::cause_spec()) == Some(found@),
                None => field(self@, Symbol::cause_spec()) is None,
            },
    {
        self.get(Symbol::cause())
    }

    /// Copies of the fields, symbol and value, in the order of their symbols.
    pub fn fields(&self) -> (fields: Vec<(Symbol, Value)>)
        ensures
            shown(fields@) == self@,
            well_formed(self@),
    {
        let copy = self.copy();
        proof {
            use_type_invariant(&copy);
            copy.lemma_view();
        }
        copy.fields
    }

    /// The error with `value` under `symbol`, in the place of what was there
    /// if the error had such a field.
    pub fn with(self, symbol: Symbol, value: Value) -> (error: Error)
        ensures
            error@ == with_field(self@, symbol, value@),
            well_formed(error@),
    {
        proof {
            use_type_invariant(&self);
            self.lemma_view();
            lemma_with_field(self@, symbol, value@, symbol);
        }
        let ghost before = self@;
        let mut fields = self.fields;
        let at = find(&fields, symbol);
        if at < fields.len() && fields[at].0 == symbol {
            fields.set(at, (symbol, value));
        } else {
            fields.insert(at, (symbol, value));
        }
        proof {
            let made = Error { fields };
            made.lemma_view();
            assert(made@ =~= with_field(before, symbol, value@));
        }
        Error { fields }
    }

    /// The error with `cause` recorded as what brought it about.
    pub fn caused_by(self, cause: Error) -> (error: Error)
        ensures
            error@ == with_field(self@, Symbol::cause_spec(), ValueView::Error(cause@)),
            well_formed(error@),
    {
        self.with(Symbol::cause(), Value::Error(cause))
    }

    /// A copy that shares nothing that can change with what it was copied from.
    pub fn copy(&self) -> (copy: Error)
        ensures
            copy@ == self@,
        decreases self,
    {
        proof {
            use_type_invariant(self);
        }
        let mut fields: Vec<(Symbol, Value)> = Vec::new();
        let mut at: usize = 0;
        while at < self.fields.len()
            invariant
                at <= self.fields.len(),
                fields@.len() == at,
                forall|i: int|
                    0 <= i < at ==> fields@[i].0 == self.fields@[i].0
                        && fields@[i].1@ == self.fields@[i].1@,
            decreases self.fields.len() - at,
        {
            fields.push((self.fields[at].0, self.fields[at].1.copy()));
            at = at + 1;
        }
        proof {
            let made = Error { fields };
            assert(made@ =~= self@);
        }
        Error { fields }
    }

    /// Whether the two hold the same fields.
    pub fn equals(&self, other: &Error) -> (same: bool)
        ensures
            same == (self@ == other@),
        decreases self,
    {
        if self.fields.len() != other.fields.len() {
            assert(self@.len() != other@.len());
            return false;
        }
        let mut at: usize = 0;
        while at < self.fields.len()
            invariant
                self.fields.len() == other.fields.len(),
                at <= self.fields.len(),
                forall|i: int| 0 <= i < at ==> self@[i] == other@[i],
            decreases self.fields.len() - at,
        {
            let same_symbol = self.fields[at].0 == other.fields[at].0;
            if !same_symbol || !self.fields[at].1.equals(&other.fields[at].1) {
                assert(self@[at as int] != other@[at as int]);
                return false;
            }
            at = at + 1;
        }
        assert(self@ =~= other@);
        true
    }

    /// How this stands to `other`: lexicographically, field by field.
    pub fn compare(&self, other: &Error) -> (found: Order)
        ensures
            found == order(ValueView::Error(self@), ValueView::Error(other@)),
        decreases self,
    {
        let mut at: usize = 0;
        while at < self.fields.len() && at < other.fields.len()
            invariant
                at <= self.fields.len(),
                at <= other.fields.len(),
                forall|i: int| 0 <= i < at ==> self@[i] == other@[i],
            decreases self.fields.len() - at,
        {
            let first = compare_ints(self.fields[at].0.id() as i128, other.fields[at].0.id() as i128);
            let found = if first.is_equal() {
                self.fields[at].1.compare(&other.fields[at].1)
            } else {
                first
            };
            proof {
                assert(found == field_order(self@[at as int], other@[at as int]));
                lemma_field_order_equal(self@[at as int], other@[at as int]);
            }
            if !found.is_equal() {
                proof {
                    lemma_parting_unique(self@, other@, at as int);
                }
                return found;
            }
            at = at + 1;
        }
        proof {
            lemma_parting_unique(self@, other@, at as int);
        }
        compare_ints(self.fields.len() as i128, other.fields.len() as i128)
    }
}

impl PartialEq for Error {
    fn eq(&self, other: &Error) -> (same: bool) {
        self.equals(other)
    }
}

impl vstd::std_specs::cmp::PartialEqSpecImpl for Error {
    open spec fn obeys_eq_spec() -> bool {
        true
    }

    open spec fn eq_spec(&self, other: &Error) -> bool {
        self@ == other@
    }
}

impl Eq for Error {

}

} // verus!
