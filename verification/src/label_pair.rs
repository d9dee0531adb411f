//! Label pairs and their canonical order, which looks at the name alone.

use crate::text::{
    agree_before, bytes_of, common_prefix_len, lemma_bytes_of_injective,
    lemma_lex_less_asymmetric, lemma_lex_less_irreflexive, lemma_lex_less_total,
    lemma_lex_less_transitive, lex_less,
};
use std::cmp::Ordering;
use vstd::prelude::*;
use vstd::std_specs::cmp::{PartialEqSpecImpl, PartialOrdSpecImpl};

verus! {

/// How the name `a` stands to the name `b` when the two are compared byte by byte,
/// lexicographically.
pub open spec fn name_order(a: Seq<char>, b: Seq<char>) -> Ordering {
    if lex_less(bytes_of(a), bytes_of(b)) {
        Ordering::Less
    } else if lex_less(bytes_of(b), bytes_of(a)) {
        Ordering::Greater
    } else {
        Ordering::Equal
    }
}

/// The order seen from the other side.
pub open spec fn reversed(order: Ordering) -> Ordering {
    match order {
        Ordering::Less => Ordering::Greater,
        Ordering::Equal => Ordering::Equal,
        Ordering::Greater => Ordering::Less,
    }
}

/// Byte sequences that agree before some position do so whichever is named first.
proof fn lemma_agree_before_symmetric(a: Seq<u8>, b: Seq<u8>)
    ensures
        forall|k: int| #[trigger] agree_before(a, b, k) ==> agree_before(b, a, k),
{
}

/// Compares two names byte by byte, lexicographically.
pub fn compare_names(a: &str, b: &str) -> (order: Ordering)
    ensures
        order == name_order(a@, b@),
{
    let x = a.as_bytes();
    let y = b.as_bytes();
    let k = common_prefix_len(x, y);
    proof {
        lemma_agree_before_symmetric(x@, y@);
    }
    if k == x.len() {
        if k == y.len() {
            proof {
                assert(x@ =~= y@);
                lemma_lex_less_irreflexive(x@);
            }
            Ordering::Equal
        } else {
            Ordering::Less
        }
    } else if k == y.len() || y[k] < x[k] {
        proof {
            lemma_lex_less_asymmetric(y@, x@);
        }
        Ordering::Greater
    } else {
        Ordering::Less
    }
}

/// A label: a name and the value it has on one sample.
#[derive(Debug)]
pub struct LabelPair {
    pub name: String,
    pub value: String,
}

impl LabelPair {
    /// How this pair stands to `other` in the canonical order of label pairs: as their
    /// names stand to each other. The values play no part.
    pub open spec fn order_to(&self, other: &LabelPair) -> Ordering {
        name_order(self.name@, other.name@)
    }

    /// A pair with an empty name and an empty value.
    pub fn new() -> (pair: LabelPair)
        ensures
            pair.name@ == Seq::<char>::empty(),
            pair.value@ == Seq::<char>::empty(),
    {
        LabelPair { name: String::new(), value: String::new() }
    }

    /// The name of the label.
    pub fn get_name(&self) -> (name: &str)
        ensures
            name@ == self.name@,
    {
        self.name.as_str()
    }

    /// The value of the label.
    pub fn get_value(&self) -> (value: &str)
        ensures
            value@ == self.value@,
    {
        self.value.as_str()
    }

    /// Replaces the name and leaves the value as it is.
    pub fn set_name(&mut self, name: String)
        ensures
            final(self).name == name,
            final(self).value == old(self).value,
    {
        self.name = name;
    }

    /// Replaces the value and leaves the name as it is.
    pub fn set_value(&mut self, value: String)
        ensures
            final(self).value == value,
            final(self).name == old(self).name,
    {
        self.value = value;
    }

    /// Compares this pair with `other` by name alone.
    pub fn cmp(&self, other: &LabelPair) -> (order: Ordering)
        ensures
            order == self.order_to(other),
    {
        compare_names(self.name.as_str(), other.name.as_str())
    }
}

impl Clone for LabelPair {
    fn clone(&self) -> (pair: LabelPair)
        ensures
            pair == *self,
    {
        LabelPair { name: self.name.clone(), value: self.value.clone() }
    }
}

impl PartialEq for LabelPair {
    /// Two pairs are equal when they have the same name and the same value.
    fn eq(&self, other: &LabelPair) -> (same: bool) {
        self.name == other.name && self.value == other.value
    }
}

impl PartialEqSpecImpl for LabelPair {
    open spec fn obeys_eq_spec() -> bool {
        true
    }

    open spec fn eq_spec(&self, other: &LabelPair) -> bool {
        self.name@ == other.name@ && self.value@ == other.value@
    }
}

impl Eq for LabelPair {}

impl PartialOrd for LabelPair {
    /// Label pairs are ordered by name alone.
    fn partial_cmp(&self, other: &LabelPair) -> (order: Option<Ordering>) {
        Some(self.cmp(other))
    }
}

impl PartialOrdSpecImpl for LabelPair {
    open spec fn obeys_partial_cmp_spec() -> bool {
        true
    }

    open spec fn partial_cmp_spec(&self, other: &LabelPair) -> Option<Ordering> {
        Some(self.order_to(other))
    }
}

/// Every name stands to itself as equal.
pub proof fn lemma_name_order_reflexive(a: Seq<char>)
    ensures
        name_order(a, a) == Ordering::Equal,
{
    lemma_lex_less_irreflexive(bytes_of(a));
}

/// Two names stand to each other as equal exactly when they are the same name.
pub proof fn lemma_name_order_equal_iff_same(a: Seq<char>, b: Seq<char>)
    ensures
        name_order(a, b) == Ordering::Equal <==> a == b,
{
    lemma_lex_less_irreflexive(bytes_of(a));
    lemma_lex_less_total(bytes_of(a), bytes_of(b));
    if lex_less(bytes_of(a), bytes_of(b)) {
        lemma_lex_less_asymmetric(bytes_of(a), bytes_of(b));
    }
    if bytes_of(a) == bytes_of(b) {
        lemma_bytes_of_injective(a, b);
    }
}

/// Swapping the two names reverses their order.
pub proof fn lemma_name_order_reverses(a: Seq<char>, b: Seq<char>)
    ensures
        name_order(b, a) == reversed(name_order(a, b)),
{
    if lex_less(bytes_of(a), bytes_of(b)) {
        lemma_lex_less_asymmetric(bytes_of(a), bytes_of(b));
    }
}

/// The order of names is transitive: what is not after `b`, which is not after `c`, is
/// not after `c`, and comes before it if either step is strict.
pub proof fn lemma_name_order_transitive(a: Seq<char>, b: Seq<char>, c: Seq<char>)
    requires
        name_order(a, b) != Ordering::Greater,
        name_order(b, c) != Ordering::Greater,
    ensures
        name_order(a, c) != Ordering::Greater,
        name_order(a, b) == Ordering::Less || name_order(b, c) == Ordering::Less ==> name_order(
            a,
            c,
        ) == Ordering::Less,
{
    lemma_name_order_equal_iff_same(a, b);
    lemma_name_order_equal_iff_same(b, c);
    lemma_name_order_equal_iff_same(a, c);
    let (x, y, z) = (bytes_of(a), bytes_of(b), bytes_of(c));
    if lex_less(x, y) && lex_less(y, z) {
        lemma_lex_less_transitive(x, y, z);
    }
    if lex_less(x, z) {
        lemma_lex_less_asymmetric(x, z);
    }
}

/// The canonical order of label pairs is a total order on their names: any two pairs are
/// comparable, a pair equals itself, swapping two pairs reverses their order, and the
/// order is transitive.
pub proof fn lemma_label_order_is_total(a: LabelPair, b: LabelPair, c: LabelPair)
    ensures
        a.order_to(&a) == Ordering::Equal,
        b.order_to(&a) == reversed(a.order_to(&b)),
        a.order_to(&b) == Ordering::Equal <==> a.name@ == b.name@,
        a.order_to(&b) != Ordering::Greater && b.order_to(&c) != Ordering::Greater ==> a.order_to(
            &c,
        ) != Ordering::Greater,
        a.order_to(&b) == Ordering::Less && b.order_to(&c) != Ordering::Greater ==> a.order_to(&c)
            == Ordering::Less,
        a.order_to(&b) != Ordering::Greater && b.order_to(&c) == Ordering::Less ==> a.order_to(&c)
            == Ordering::Less,
{
    lemma_name_order_reflexive(a.name@);
    lemma_name_order_reverses(a.name@, b.name@);
    lemma_name_order_equal_iff_same(a.name@, b.name@);
    if a.order_to(&b) != Ordering::Greater && b.order_to(&c) != Ordering::Greater {
        lemma_name_order_transitive(a.name@, b.name@, c.name@);
    }
}

/// The canonical order of label pairs is keyed on the name alone: pairs with the same
/// names stand to each other in the same way, whatever their values.
pub proof fn lemma_label_order_ignores_value(a: LabelPair, b: LabelPair, c: LabelPair, d: LabelPair)
    requires
        a.name@ == c.name@,
        b.name@ == d.name@,
    ensures
        a.order_to(&b) == c.order_to(&d),
{
}

} // verus!
