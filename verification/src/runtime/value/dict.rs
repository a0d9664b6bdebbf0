//! Dictionaries from values to values.

use vstd::prelude::*;
use super::order::{
    compare_ints, entry_order, lemma_entry_order_equal, lemma_order_equal, lemma_order_flip,
    lemma_order_transitive, lemma_parting_unique, order, Order,
};
use super::Value;
use super::ValueView;

verus! {

/// Whether the keys of `entries` rise strictly, so that no key stands twice.
pub open spec fn rising(entries: Seq<(ValueView, ValueView)>) -> bool {
    forall|i: int, j: int|
        0 <= i < j < entries.len() ==> (#[trigger] order(entries[i].0, entries[j].0)) is Less
}

/// The first index from `from` on whose key does not stand before `key`.
pub open spec fn slot_from(entries: Seq<(ValueView, ValueView)>, key: ValueView, from: int) -> int
    decreases entries.len() - from,
{
    if from >= entries.len() || !(order(entries[from].0, key) is Less) {
        from
    } else {
        slot_from(entries, key, from + 1)
    }
}

/// The place of `key` among rising entries: the index of the first entry
/// whose key does not stand before `key`. That is where the entry of `key`
/// stands if there is one, and where it belongs if there is none.
pub open spec fn slot(entries: Seq<(ValueView, ValueView)>, key: ValueView) -> int {
    slot_from(entries, key, 0)
}

/// Whether `at` is the place of `key` among `entries`.
pub open spec fn is_slot(entries: Seq<(ValueView, ValueView)>, key: ValueView, at: int) -> bool {
    &&& 0 <= at <= entries.len()
    &&& forall|i: int| 0 <= i < at ==> (#[trigger] order(entries[i].0, key)) is Less
    &&& at < entries.len() ==> !(order(entries[at].0, key) is Less)
}

/// Whether `entries` holds an entry of `key`.
pub open spec fn has_key(entries: Seq<(ValueView, ValueView)>, key: ValueView) -> bool {
    exists|i: int| 0 <= i < entries.len() && (#[trigger] entries[i]).0 == key
}

/// The value that rising entries hold for `key`, if any.
pub open spec fn lookup(entries: Seq<(ValueView, ValueView)>, key: ValueView) -> Option<
    ValueView,
> {
    let at = slot(entries, key);
    if at < entries.len() && entries[at].0 == key {
        Some(entries[at].1)
    } else {
        None
    }
}

/// Rising entries with `value` for `key`: in the place of the entry of `key`
/// if there is one, else as a new entry where it belongs.
pub open spec fn put(entries: Seq<(ValueView, ValueView)>, key: ValueView, value: ValueView) -> Seq<
    (ValueView, ValueView),
> {
    let at = slot(entries, key);
    if at < entries.len() && entries[at].0 == key {
        entries.update(at, (key, value))
    } else {
        entries.insert(at, (key, value))
    }
}

/// Rising entries without the entry of `key`.
pub open spec fn without(entries: Seq<(ValueView, ValueView)>, key: ValueView) -> Seq<
    (ValueView, ValueView),
> {
    let at = slot(entries, key);
    if at < entries.len() && entries[at].0 == key {
        entries.remove(at)
    } else {
        entries
    }
}

/// `slot_from` finds the place of `key`, if all entries before `from` stand
/// before `key`.
pub proof fn lemma_slot_from(entries: Seq<(ValueView, ValueView)>, key: ValueView, from: int)
    requires
        0 <= from <= entries.len(),
        forall|i: int| 0 <= i < from ==> (#[trigger] order(entries[i].0, key)) is Less,
    ensures
        is_slot(entries, key, slot_from(entries, key, from)),
    decreases entries.len() - from,
{
    if from >= entries.len() || !(order(entries[from].0, key) is Less) {
    } else {
        lemma_slot_from(entries, key, from + 1);
    }
}

/// `slot` is the place of `key`, and the only one.
pub proof fn lemma_slot(entries: Seq<(ValueView, ValueView)>, key: ValueView, at: int)
    ensures
        is_slot(entries, key, slot(entries, key)),
        is_slot(entries, key, at) ==> at == slot(entries, key),
{
    lemma_slot_from(entries, key, 0);
    let found = slot(entries, key);
    if is_slot(entries, key, at) {
        if at < found {
            assert(order(entries[at].0, key) is Less);
        } else if found < at {
            assert(order(entries[found].0, key) is Less);
        }
    }
}

/// Among rising entries, all entries after the place of `key` have keys that
/// `key` stands before, and the entry at the place has `key` or a key that
/// `key` stands before.
pub proof fn lemma_slot_rising(entries: Seq<(ValueView, ValueView)>, key: ValueView)
    requires
        rising(entries),
    ensures
        forall|i: int|
            slot(entries, key) <= i < entries.len() && entries[i].0 != key ==> (#[trigger] order(
                key,
                entries[i].0,
            )) is Less,
        forall|i: int|
            slot(entries, key) < i < entries.len() ==> (#[trigger] entries[i]).0 != key,
{
    lemma_slot(entries, key, 0);
    let at = slot(entries, key);
    assert forall|i: int| at <= i < entries.len() implies (entries[i].0 != key ==> (#[trigger] order(
        key,
        entries[i].0,
    )) is Less) && (at < i ==> entries[i].0 != key) by {
        lemma_order_flip(entries[at].0, key);
        lemma_order_equal(entries[at].0, key);
        lemma_order_equal(entries[i].0, key);
        lemma_order_flip(entries[i].0, key);
        if at < i {
            assert(order(entries[at].0, entries[i].0) is Less);
            if entries[at].0 != key {
                lemma_order_transitive(key, entries[at].0, entries[i].0);
            }
        }
    }
}

/// Among rising entries, a key is looked up with success just when some entry
/// has it, and then the value of that entry is found.
pub proof fn lemma_lookup(entries: Seq<(ValueView, ValueView)>, key: ValueView)
    requires
        rising(entries),
    ensures
        lookup(entries, key) is Some <==> has_key(entries, key),
        forall|i: int|
            0 <= i < entries.len() && (#[trigger] entries[i]).0 == key ==> lookup(entries, key)
                == Some(entries[i].1),
{
    lemma_slot(entries, key, 0);
    lemma_slot_rising(entries, key);
    let at = slot(entries, key);
    assert forall|i: int| 0 <= i < entries.len() && (#[trigger] entries[i]).0 == key implies i
        == at by {
        lemma_order_equal(entries[i].0, key);
        if i < at {
            assert(order(entries[i].0, key) is Less);
        }
    }
    if lookup(entries, key) is Some {
        assert(entries[at].0 == key);
    }
}

/// Putting a value under a key keeps the entries rising, makes the key give
/// that value, and leaves what every other key gives as it was.
pub proof fn lemma_put(
    entries: Seq<(ValueView, ValueView)>,
    key: ValueView,
    value: ValueView,
    other: ValueView,
)
    requires
        rising(entries),
    ensures
        rising(put(entries, key, value)),
        lookup(put(entries, key, value), key) == Some(value),
        other != key ==> lookup(put(entries, key, value), other) == lookup(entries, other),
        put(entries, key, value).len() == entries.len() + (if has_key(entries, key) {
            0int
        } else {
            1int
        }),
{
    lemma_slot(entries, key, 0);
    lemma_slot_rising(entries, key);
    lemma_lookup(entries, key);
    let at = slot(entries, key);
    let held = at < entries.len() && entries[at].0 == key;
    let after = put(entries, key, value);
    let back = |i: int|
        if held || i < at {
            i
        } else {
            i - 1
        };
    assert forall|i: int, j: int| 0 <= i < j < after.len() implies (#[trigger] order(
        after[i].0,
        after[j].0,
    )) is Less by {
        if held {
            assert(order(entries[i].0, entries[j].0) is Less);
        } else if j == at {
            assert(order(entries[i].0, key) is Less);
        } else if i == at {
            assert(order(key, entries[j - 1].0) is Less);
        } else {
            assert(order(entries[back(i)].0, entries[back(j)].0) is Less);
        }
    }
    assert(after[at].0 == key);
    lemma_lookup(after, key);
    if other != key {
        lemma_lookup(entries, other);
        lemma_lookup(after, other);
        if has_key(entries, other) {
            let i = choose|i: int| 0 <= i < entries.len() && (#[trigger] entries[i]).0 == other;
            let to = if held || i < at {
                i
            } else {
                i + 1
            };
            assert(after[to] == entries[i]);
        } else if has_key(after, other) {
            let i = choose|i: int| 0 <= i < after.len() && (#[trigger] after[i]).0 == other;
            assert(after[i] == entries[back(i)]);
            assert(false);
        }
    }
}

/// Taking a key out keeps the entries rising, makes the key give nothing, and
/// leaves what every other key gives as it was.
pub proof fn lemma_without(entries: Seq<(ValueView, ValueView)>, key: ValueView, other: ValueView)
    requires
        rising(entries),
    ensures
        rising(without(entries, key)),
        lookup(without(entries, key), key) is None,
        other != key ==> lookup(without(entries, key), other) == lookup(entries, other),
{
    lemma_slot(entries, key, 0);
    lemma_slot_rising(entries, key);
    lemma_lookup(entries, key);
    let at = slot(entries, key);
    let held = at < entries.len() && entries[at].0 == key;
    let after = without(entries, key);
    let back = |i: int|
        if !held || i < at {
            i
        } else {
            i + 1
        };
    assert forall|i: int, j: int| 0 <= i < j < after.len() implies (#[trigger] order(
        after[i].0,
        after[j].0,
    )) is Less by {
        assert(order(entries[back(i)].0, entries[back(j)].0) is Less);
    }
    lemma_lookup(after, key);
    if has_key(after, key) {
        let i = choose|i: int| 0 <= i < after.len() && (#[trigger] after[i]).0 == key;
        assert(after[i] == entries[back(i)]);
        assert(false);
    }
    if other != key {
        lemma_lookup(entries, other);
        lemma_lookup(after, other);
        if has_key(entries, other) {
            let i = choose|i: int| 0 <= i < entries.len() && (#[trigger] entries[i]).0 == other;
            let to = if !held || i < at {
                i
            } else {
                i - 1
            };
            assert(after[to] == entries[i]);
        } else if has_key(after, other) {
            let i = choose|i: int| 0 <= i < after.len() && (#[trigger] after[i]).0 == other;
            assert(after[i] == entries[back(i)]);
            assert(false);
        }
    }
}

/// A mapping from values to values, kept as its entries in the order of their
/// keys.
#[derive(Debug, Hash, PartialOrd, Ord)]
pub struct Dict {
    pub(crate) entries: Vec<(Value, Value)>,
}

impl View for Dict {
    type V = Seq<(ValueView, ValueView)>;

    /// The entries, key and value, in the order of their keys.
    closed spec fn view(&self) -> Seq<(ValueView, ValueView)>
        decreases self,
    {
        Seq::new(
            self.entries@.len(),
            |i: int|
                if 0 <= i < self.entries@.len() {
                    (self.entries@[i].0@, self.entries@[i].1@)
                } else {
                    (ValueView::Nil, ValueView::Nil)
                },
        )
    }
}

/// What the entries are, each key and value apart from how it is stored.
pub open spec fn shown(entries: Seq<(Value, Value)>) -> Seq<(ValueView, ValueView)> {
    Seq::new(entries.len(), |i: int| (entries[i].0@, entries[i].1@))
}

impl Dict {
    #[verifier::type_invariant]
    spec fn keys_rise(&self) -> bool {
        rising(self@)
    }

    /// The empty dictionary.
    pub fn new() -> (dict: Dict)
        ensures
            dict@ == Seq::<(ValueView, ValueView)>::empty(),
    {
        let dict = Dict { entries: Vec::new() };
        assert(dict@ =~= Seq::<(ValueView, ValueView)>::empty());
        dict
    }

    /// The number of entries.
    pub fn len(&self) -> (len: usize)
        ensures
            len == self@.len(),
            rising(self@),
    {
        proof {
            use_type_invariant(self);
        }
        self.entries.len()
    }

    /// Whether the dictionary holds no entry.
    pub fn is_empty(&self) -> (empty: bool)
        ensures
            empty == (self@.len() == 0),
    {
        self.entries.len() == 0
    }

    /// The place of `key` among the entries.
    fn find(&self, key: &Value) -> (at: usize)
        ensures
            at == slot(self@, key@),
            at <= self@.len(),
            at < self@.len() ==> self@[at as int].0 == self.entries@[at as int].0@,
    {
        let mut at: usize = 0;
        while at < self.entries.len()
            invariant
                at <= self.entries.len(),
                slot(self@, key@) == slot_from(self@, key@, at as int),
            decreases self.entries.len() - at,
        {
            if !self.entries[at].0.compare(key).is_less() {
                return at;
            }
            at = at + 1;
        }
        at
    }

    /// The value that the dictionary holds for `key`, if any.
    pub fn get(&self, key: &Value) -> (value: Option<&Value>)
        ensures
            match value {
                Some(found) => lookup(self@, key@) == Some(found@),
                None => lookup(self@, key@) is None,
            },
    {
        let at = self.find(key);
        if at < self.entries.len() && self.entries[at].0.equals(key) {
            Some(&self.entries[at].1)
        } else {
            None
        }
    }

    /// Whether the dictionary holds an entry for `key`.
    pub fn contains_key(&self, key: &Value) -> (held: bool)
        ensures
            held == has_key(self@, key@),
    {
        proof {
            use_type_invariant(self);
            lemma_lookup(self@, key@);
        }
        self.get(key).is_some()
    }

    /// Copies of the entries, key and value, in the order of their keys.
    pub fn entries(&self) -> (entries: Vec<(Value, Value)>)
        ensures
            shown(entries@) == self@,
            rising(self@),
    {
        proof {
            use_type_invariant(self);
        }
        let copy = self.copy();
        assert(shown(copy.entries@) =~= copy@);
        copy.entries
    }

    /// Puts `value` under `key`, in the place of the value that was there if
    /// there was one. Gives back the value that was there.
    pub fn insert(&mut self, key: Value, value: Value) -> (previous: Option<Value>)
        ensures
            final(self)@ == put(old(self)@, key@, value@),
            rising(final(self)@),
            match previous {
                Some(found) => lookup(old(self)@, key@) == Some(found@),
                None => lookup(old(self)@, key@) is None,
            },
    {
        proof {
            use_type_invariant(&*self);
            lemma_slot(self@, key@, 0);
            lemma_slot_rising(self@, key@);
        }
        let ghost before = self@;
        let at = self.find(&key);
        let held = at < self.entries.len() && self.entries[at].0.equals(&key);
        let mut entries: Vec<(Value, Value)> = Vec::new();
        std::mem::swap(&mut entries, &mut self.entries);
        assert(self@ =~= Seq::<(ValueView, ValueView)>::empty());
        let previous = if held {
            let mut entry = (key, value);
            let ghost put_in = (entry.0@, entry.1@);
            std::mem::swap(&mut entry, &mut entries[at]);
            proof {
                let made = Dict { entries };
                assert(made@ =~= before.update(at as int, put_in));
                lemma_put(before, put_in.0, put_in.1, put_in.0);
            }
            Some(entry.1)
        } else {
            let ghost put_in = (key@, value@);
            entries.insert(at, (key, value));
            proof {
                let made = Dict { entries };
                assert(made@ =~= before.insert(at as int, put_in));
                lemma_put(before, put_in.0, put_in.1, put_in.0);
            }
            None
        };
        self.entries = entries;
        previous
    }

    /// Takes the entry of `key` out of the dictionary, and gives back its
    /// value. A key that the dictionary does not hold leaves it as it is.
    pub fn remove(&mut self, key: &Value) -> (removed: Option<Value>)
        ensures
            final(self)@ == without(old(self)@, key@),
            rising(final(self)@),
            match removed {
                Some(found) => lookup(old(self)@, key@) == Some(found@),
                None => lookup(old(self)@, key@) is None,
            },
    {
        proof {
            use_type_invariant(&*self);
        }
        let ghost before = self@;
        let at = self.find(key);
        if at < self.entries.len() && self.entries[at].0.equals(key) {
            let mut entries: Vec<(Value, Value)> = Vec::new();
            std::mem::swap(&mut entries, &mut self.entries);
            assert(self@ =~= Seq::<(ValueView, ValueView)>::empty());
            let entry = entries.remove(at);
            proof {
                let made = Dict { entries };
                assert(made@ =~= before.remove(at as int));
                lemma_without(before, key@, key@);
            }
            self.entries = entries;
            Some(entry.1)
        } else {
            None
        }
    }

    /// A copy that shares nothing that can change with what it was copied from.
    pub fn copy(&self) -> (copy: Dict)
        ensures
            copy@ == self@,
        decreases self,
    {
        proof {
            use_type_invariant(self);
        }
        let mut entries: Vec<(Value, Value)> = Vec::new();
        let mut at: usize = 0;
        while at < self.entries.len()
            invariant
                at <= self.entries.len(),
                entries@.len() == at,
                forall|i: int|
                    0 <= i < at ==> entries@[i].0@ == self.entries@[i].0@
                        && entries@[i].1@ == self.entries@[i].1@,
            decreases self.entries.len() - at,
        {
            entries.push((self.entries[at].0.copy(), self.entries[at].1.copy()));
            at = at + 1;
        }
        proof {
            let made = Dict { entries };
            assert(made@ =~= self@);
        }
        Dict { entries }
    }

    /// Whether the two hold the same entries.
    pub fn equals(&self, other: &Dict) -> (same: bool)
        ensures
            same == (self@ == other@),
        decreases self,
    {
        if self.entries.len() != other.entries.len() {
            assert(self@.len() != other@.len());
            return false;
        }
        let mut at: usize = 0;
        while at < self.entries.len()
            invariant
                self.entries.len() == other.entries.len(),
                at <= self.entries.len(),
                forall|i: int| 0 <= i < at ==> self@[i] == other@[i],
            decreases self.entries.len() - at,
        {
            let same_key = self.entries[at].0.equals(&other.entries[at].0);
            if !same_key || !self.entries[at].1.equals(&other.entries[at].1) {
                assert(self@[at as int] != other@[at as int]);
                return false;
            }
            at = at + 1;
        }
        assert(self@ =~= other@);
        true
    }

    /// How this stands to `other`: lexicographically, entry by entry.
    pub fn compare(&self, other: &Dict) -> (found: Order)
        ensures
            found == order(ValueView::Dict(self@), ValueView::Dict(other@)),
        decreases self,
    {
        let mut at: usize = 0;
        while at < self.entries.len() && at < other.entries.len()
            invariant
                at <= self.entries.len(),
                at <= other.entries.len(),
                forall|i: int| 0 <= i < at ==> self@[i] == other@[i],
            decreases self.entries.len() - at,
        {
            let first = self.entries[at].0.compare(&other.entries[at].0);
            let found = if first.is_equal() {
                self.entries[at].1.compare(&other.entries[at].1)
            } else {
                first
            };
            proof {
                assert(found == entry_order(self@[at as int], other@[at as int]));
                lemma_entry_order_equal(self@[at as int], other@[at as int]);
            }
            if !found.is_equal() {
                proof {
                    lemma_parting_unique(self@, other@, at as int);
                }
                return found;
            }
            at = at + 1;
        }
        proof {
            lemma_parting_unique(self@, other@, at as int);
        }
        compare_ints(self.entries.len() as i128, other.entries.len() as i128)
    }
}

impl PartialEq for Dict {
    fn eq(&self, other: &Dict) -> (same: bool) {
        self.equals(other)
    }
}

impl vstd::std_specs::cmp::PartialEqSpecImpl for Dict {
    open spec fn obeys_eq_spec() -> bool {
        true
    }

    open spec fn eq_spec(&self, other: &Dict) -> bool {
        self@ == other@
    }
}

impl Eq for Dict {

}

} // verus!
