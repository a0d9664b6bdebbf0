//! The operators `<`, `<=`, `>` and `>=` on values.

use std::cmp::Ordering;
use vstd::prelude::*;
use vstd::std_specs::cmp::{PartialEqSpec, PartialOrdSpec};
use super::order::{lemma_order_equal, lemma_order_flip, order, Order};
use super::Value;

verus! {

impl PartialOrd for Value {
    fn partial_cmp(&self, other: &Value) -> (found: Option<Ordering>) {
        match self.compare(other) {
            Order::Less => Some(Ordering::Less),
            Order::Equal => Some(Ordering::Equal),
            Order::Greater => Some(Ordering::Greater),
        }
    }
}

impl vstd::std_specs::cmp::PartialOrdSpecImpl for Value {
    open spec fn obeys_partial_cmp_spec() -> bool {
        true
    }

    /// Any two values can be compared, and stand as [`order`] says.
    open spec fn partial_cmp_spec(&self, other: &Value) -> Option<Ordering> {
        match order(self@, other@) {
            Order::Less => Some(Ordering::Less),
            Order::Equal => Some(Ordering::Equal),
            Order::Greater => Some(Ordering::Greater),
        }
    }
}

/// Of `a < b`, `a == b` and `a > b` exactly one holds, whatever the two values
/// are, floats that are NaN among them; and `a > b` says what `b < a` says.
pub proof fn lemma_operators_are_total(a: Value, b: Value)
    ensures
        a.partial_cmp_spec(&b) is Some,
        a.eq_spec(&b) <==> a.partial_cmp_spec(&b) == Some(Ordering::Equal),
        a.partial_cmp_spec(&b) == Some(Ordering::Greater) <==> b.partial_cmp_spec(&a) == Some(
            Ordering::Less,
        ),
        a.partial_cmp_spec(&b) == Some(Ordering::Less) || a.eq_spec(&b) || a.partial_cmp_spec(&b)
            == Some(Ordering::Greater),
{
    lemma_order_equal(a@, b@);
    lemma_order_flip(a@, b@);
}

} // verus!
