//! Arrays of values.

use vstd::prelude::*;
use super::errors::{EmptyCollection, IndexOutOfBounds};
use super::order::{compare_ints, lemma_order_equal, lemma_parting_unique, order, Order};
use super::views;
use super::Value;
use super::ValueView;

verus! {

/// A sequence of values that can grow, shrink and be written to.
#[derive(Debug, Hash, PartialOrd, Ord)]
pub struct Array {
    pub(crate) items: Vec<Value>,
}

impl View for Array {
    type V = Seq<ValueView>;

    /// The items, in their order.
    closed spec fn view(&self) -> Seq<ValueView>
        decreases self,
    {
        Seq::new(
            self.items@.len(),
            |i: int|
                if 0 <= i < self.items@.len() {
                    self.items@[i]@
                } else {
                    ValueView::Nil
                },
        )
    }
}

impl Array {
    /// What the array holds is what its items are.
    proof fn lemma_view(&self)
        ensures
            self@ == views(self.items@),
    {
        assert(self@ =~= views(self.items@));
    }

    /// The array of the given items.
    pub fn new(items: Vec<Value>) -> (array: Array)
        ensures
            array@ == views(items@),
    {
        let array = Array { items };
        proof {
            array.lemma_view();
        }
        array
    }

    /// The number of items.
    pub fn len(&self) -> (len: usize)
        ensures
            len == self@.len(),
    {
        self.items.len()
    }

    /// Whether the array holds no item.
    pub fn is_empty(&self) -> (empty: bool)
        ensures
            empty == (self@.len() == 0),
    {
        self.items.len() == 0
    }

    /// A copy of the array that shares nothing with it that can change: what
    /// is done to either is not seen in the other.
    pub fn copy(&self) -> (array: Array)
        ensures
            array@ == self@,
        decreases self,
    {
        let mut items: Vec<Value> = Vec::new();
        let mut at: usize = 0;
        while at < self.items.len()
            invariant
                at <= self.items.len(),
                items@.len() == at,
                forall|i: int| 0 <= i < at ==> items@[i]@ == self.items@[i]@,
            decreases self.items.len() - at,
        {
            items.push(self.items[at].copy());
            at = at + 1;
        }
        let array = Array { items };
        assert(array@ =~= self@);
        array
    }

    /// Whether the two arrays hold the same items in the same order.
    pub fn equals(&self, other: &Array) -> (same: bool)
        ensures
            same == (self@ == other@),
        decreases self,
    {
        if self.items.len() != other.items.len() {
            assert(self@.len() != other@.len());
            return false;
        }
        let mut at: usize = 0;
        while at < self.items.len()
            invariant
                self.items.len() == other.items.len(),
                at <= self.items.len(),
                forall|i: int| 0 <= i < at ==> self@[i] == other@[i],
            decreases self.items.len() - at,
        {
            if !self.items[at].equals(&other.items[at]) {
                assert(self@[at as int] != other@[at as int]);
                return false;
            }
            at = at + 1;
        }
        assert(self@ =~= other@);
        true
    }

    /// How the array stands to `other`: lexicographically, item by item.
    pub fn compare(&self, other: &Array) -> (found: Order)
        ensures
            found == order(ValueView::Array(self@), ValueView::Array(other@)),
        decreases self,
    {
        let mut at: usize = 0;
        while at < self.items.len() && at < other.items.len()
            invariant
                at <= self.items.len(),
                at <= other.items.len(),
                forall|i: int| 0 <= i < at ==> self@[i] == other@[i],
            decreases self.items.len() - at,
        {
            let found = self.items[at].compare(&other.items[at]);
            proof {
                lemma_order_equal(self@[at as int], other@[at as int]);
            }
            if !found.is_equal() {
                proof {
                    lemma_parting_unique(self@, other@, at as int);
                }
                return found;
            }
            at = at + 1;
        }
        proof {
            lemma_parting_unique(self@, other@, at as int);
        }
        compare_ints(self.items.len() as i128, other.items.len() as i128)
    }

    /// The item at `index`, if there is one.
    pub fn get(&self, index: usize) -> (item: Option<&Value>)
        ensures
            match item {
                Some(value) => index < self@.len() && value@ == self@[index as int],
                None => index >= self@.len(),
            },
    {
        if index < self.items.len() {
            Some(&self.items[index])
        } else {
            None
        }
    }

    /// A copy of the item at `index`, counted from 0.
    pub fn index(&self, index: i64) -> (item: Result<Value, IndexOutOfBounds>)
        ensures
            match item {
                Ok(value) => 0 <= index < self@.len() && value@ == self@[index as int],
                Err(_) => !(0 <= index < self@.len()),
            },
    {
        if index < 0 || index as u64 >= self.items.len() as u64 {
            return Err(IndexOutOfBounds);
        }
        Ok(self.items[index as usize].copy())
    }

    /// Puts `value` in the place of the item at `index`, counted from 0. An
    /// index that the array does not have leaves it as it is.
    pub fn set(&mut self, index: i64, value: Value) -> (done: Result<(), IndexOutOfBounds>)
        ensures
            match done {
                Ok(_) => 0 <= index < old(self)@.len() && final(self)@ == old(self)@.update(
                    index as int,
                    value@,
                ),
                Err(_) => !(0 <= index < old(self)@.len()) && final(self)@ == old(self)@,
            },
    {
        if index < 0 || index as u64 >= self.items.len() as u64 {
            return Err(IndexOutOfBounds);
        }
        let ghost before = self@;
        self.items.set(index as usize, value);
        assert(self@ =~= before.update(index as int, value@));
        Ok(())
    }

    /// Adds `value` as the last item.
    pub fn push(&mut self, value: Value)
        ensures
            final(self)@ == old(self)@.push(value@),
    {
        let ghost before = self@;
        self.items.push(value);
        assert(self@ =~= before.push(value@));
    }

    /// Takes the last item off the array.
    pub fn pop(&mut self) -> (item: Result<Value, EmptyCollection>)
        ensures
            match item {
                Ok(value) => old(self)@.len() > 0 && value@ == old(self)@.last() && final(self)@
                    == old(self)@.drop_last(),
                Err(_) => old(self)@.len() == 0 && final(self)@ == old(self)@,
            },
    {
        let ghost before = self@;
        match self.items.pop() {
            Some(value) => {
                assert(self@ =~= before.drop_last());
                Ok(value)
            },
            None => {
                assert(self@ =~= before);
                Err(EmptyCollection)
            },
        }
    }

    /// Whether some item of the array is `value`.
    pub fn contains(&self, value: &Value) -> (found: bool)
        ensures
            found == self@.contains(value@),
    {
        let mut at: usize = 0;
        while at < self.items.len()
            invariant
                at <= self.items.len(),
                forall|i: int| 0 <= i < at ==> self@[i] != value@,
            decreases self.items.len() - at,
        {
            if self.items[at].equals(value) {
                assert(self@[at as int] == value@);
                return true;
            }
            at = at + 1;
        }
        false
    }
}

impl PartialEq for Array {
    fn eq(&self, other: &Array) -> (same: bool) {
        self.equals(other)
    }
}

impl vstd::std_specs::cmp::PartialEqSpecImpl for Array {
    open spec fn obeys_eq_spec() -> bool {
        true
    }

    open spec fn eq_spec(&self, other: &Array) -> bool {
        self@ == other@
    }
}

impl Eq for Array {

}

} // verus!
