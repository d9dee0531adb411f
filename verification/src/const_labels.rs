//! Constant labels: a map from label names to the values they have on every sample.

use crate::label_pair::LabelPair;
use crate::text::same_text;
use vstd::prelude::*;

verus! {

/// The map that a list of label pairs stands for. Where a name occurs more than once, the
/// last pair that holds it counts.
pub open spec fn pairs_to_map(pairs: Seq<LabelPair>) -> Map<Seq<char>, Seq<char>>
    decreases pairs.len(),
{
    if pairs.len() == 0 {
        Map::empty()
    } else {
        pairs_to_map(pairs.drop_last()).insert(pairs.last().name@, pairs.last().value@)
    }
}

/// No name occurs twice in `pairs`.
pub open spec fn names_are_unique(pairs: Seq<LabelPair>) -> bool {
    forall|i: int, j: int| 0 <= i < j < pairs.len() ==> pairs[i].name@ != pairs[j].name@
}

/// Some pair in `pairs` is named `name`.
pub open spec fn holds_name(pairs: Seq<LabelPair>, name: Seq<char>) -> bool {
    exists|i: int| 0 <= i < pairs.len() && #[trigger] pairs[i].name@ == name
}

/// The map of a list of pairs is finite, and its keys are the names in the list.
pub proof fn lemma_map_keys(pairs: Seq<LabelPair>)
    ensures
        pairs_to_map(pairs).dom().finite(),
        forall|name: Seq<char>| #[trigger]
            pairs_to_map(pairs).contains_key(name) <==> holds_name(pairs, name),
    decreases pairs.len(),
{
    if pairs.len() > 0 {
        let front = pairs.drop_last();
        lemma_map_keys(front);
        assert forall|name: Seq<char>| #[trigger]
            pairs_to_map(pairs).contains_key(name) <==> holds_name(pairs, name) by {
            if holds_name(pairs, name) {
                let i = choose|i: int| 0 <= i < pairs.len() && #[trigger] pairs[i].name@ == name;
                if i < front.len() {
                    assert(front[i].name@ == name);
                }
            }
            if pairs_to_map(pairs).contains_key(name) {
                if name == pairs.last().name@ {
                    assert(pairs[pairs.len() - 1].name@ == name);
                } else {
                    let i = choose|i: int|
                        0 <= i < front.len() && #[trigger] front[i].name@ == name;
                    assert(pairs[i].name@ == name);
                }
            }
        }
    }
}

/// Where no name occurs twice, each pair of the list is an entry of the map, and the map
/// has as many entries as the list has pairs.
pub proof fn lemma_map_of_unique(pairs: Seq<LabelPair>)
    requires
        names_are_unique(pairs),
    ensures
        pairs_to_map(pairs).len() == pairs.len(),
        forall|i: int|
            0 <= i < pairs.len() ==> pairs_to_map(pairs)[#[trigger] pairs[i].name@]
                == pairs[i].value@,
    decreases pairs.len(),
{
    if pairs.len() > 0 {
        let front = pairs.drop_last();
        lemma_map_of_unique(front);
        lemma_map_keys(front);
        if holds_name(front, pairs.last().name@) {
            let i = choose|i: int|
                0 <= i < front.len() && #[trigger] front[i].name@ == pairs.last().name@;
            assert(pairs[i].name@ == pairs[pairs.len() - 1].name@);
        }
        assert forall|i: int| 0 <= i < pairs.len() implies pairs_to_map(
            pairs,
        )[#[trigger] pairs[i].name@] == pairs[i].value@ by {
            if i < front.len() {
                assert(front[i].name@ == pairs[i].name@);
            }
        }
    }
}

/// Giving the pair at `at` a new value, under the same name, sets that name's entry in
/// the map.
proof fn lemma_map_after_update(pairs: Seq<LabelPair>, at: int, pair: LabelPair)
    requires
        names_are_unique(pairs),
        0 <= at < pairs.len(),
        pair.name@ == pairs[at].name@,
    ensures
        names_are_unique(pairs.update(at, pair)),
        pairs_to_map(pairs.update(at, pair)) == pairs_to_map(pairs).insert(pair.name@, pair.value@),
    decreases pairs.len(),
{
    let after = pairs.update(at, pair);
    let front = pairs.drop_last();
    if at == pairs.len() - 1 {
        assert(after.drop_last() =~= front);
    } else {
        lemma_map_after_update(front, at, pair);
        assert(after.drop_last() =~= front.update(at, pair));
        assert(pairs[at].name@ != pairs[pairs.len() - 1].name@);
    }
    assert(pairs_to_map(after) =~= pairs_to_map(pairs).insert(pair.name@, pair.value@));
}

/// Constant labels: label names, each with the one value it has on every sample of a
/// metric. No name occurs twice.
#[derive(Debug)]
pub struct ConstLabels {
    pairs: Vec<LabelPair>,
}

impl View for ConstLabels {
    type V = Map<Seq<char>, Seq<char>>;

    closed spec fn view(&self) -> Map<Seq<char>, Seq<char>> {
        pairs_to_map(self.pairs@)
    }
}

impl ConstLabels {
    #[verifier::type_invariant]
    spec fn well_formed(&self) -> bool {
        names_are_unique(self.pairs@)
    }

    /// No constant labels.
    pub fn new() -> (labels: ConstLabels)
        ensures
            labels@ == Map::<Seq<char>, Seq<char>>::empty(),
    {
        ConstLabels { pairs: Vec::new() }
    }

    /// The number of labels.
    pub fn len(&self) -> (n: usize)
        ensures
            self@.dom().finite(),
            n == self@.len(),
    {
        proof {
            use_type_invariant(self);
            lemma_map_keys(self.pairs@);
            lemma_map_of_unique(self.pairs@);
        }
        self.pairs.len()
    }

    /// Whether there is no label.
    pub fn is_empty(&self) -> (empty: bool)
        ensures
            empty == (self@ == Map::<Seq<char>, Seq<char>>::empty()),
    {
        proof {
            use_type_invariant(self);
            lemma_map_keys(self.pairs@);
            lemma_map_of_unique(self.pairs@);
            if self.pairs@.len() == 0 {
                assert(self@ =~= Map::<Seq<char>, Seq<char>>::empty());
            }
        }
        self.pairs.len() == 0
    }

    /// Where the pair named `name` stands in the list, or the length of the list if no
    /// pair has that name.
    fn position(&self, name: &str) -> (at: usize)
        ensures
            at <= self.pairs@.len(),
            at < self.pairs@.len() ==> self.pairs@[at as int].name@ == name@,
            at == self.pairs@.len() ==> !holds_name(self.pairs@, name@),
    {
        let mut at: usize = 0;
        while at < self.pairs.len()
            invariant
                at <= self.pairs@.len(),
                forall|i: int| 0 <= i < at ==> self.pairs@[i].name@ != name@,
            decreases self.pairs@.len() - at,
        {
            if same_text(self.pairs[at].get_name(), name) {
                return at;
            }
            at += 1;
        }
        at
    }

    /// The value of the label named `name`, if there is one.
    pub fn get(&self, name: &str) -> (value: Option<&str>)
        ensures
            value is Some <==> self@.contains_key(name@),
            value matches Some(v) ==> v@ == self@[name@],
    {
        proof {
            use_type_invariant(self);
            lemma_map_keys(self.pairs@);
            lemma_map_of_unique(self.pairs@);
        }
        let at = self.position(name);
        if at < self.pairs.len() {
            Some(self.pairs[at].get_value())
        } else {
            None
        }
    }

    /// Sets the label named `name` to `value`, whether or not there was a label of that
    /// name. All other labels stay as they are.
    pub fn insert(&mut self, name: String, value: String)
        ensures
            final(self)@ == old(self)@.insert(name@, value@),
    {
        proof {
            use_type_invariant(&*self);
        }
        let at = self.position(name.as_str());
        let pair = LabelPair { name, value };
        let mut pairs = Vec::new();
        std::mem::swap(&mut pairs, &mut self.pairs);
        if at < pairs.len() {
            proof {
                lemma_map_after_update(pairs@, at as int, pair);
            }
            pairs[at] = pair;
        } else {
            proof {
                assert(pairs@.push(pair).drop_last() =~= pairs@);
            }
            pairs.push(pair);
        }
        self.pairs = pairs;
    }

    /// The labels as a list of pairs, each name once, in no particular order.
    pub fn pairs(&self) -> (pairs: &[LabelPair])
        ensures
            names_are_unique(pairs@),
            pairs_to_map(pairs@) == self@,
    {
        proof {
            use_type_invariant(self);
        }
        self.pairs.as_slice()
    }
}

impl Clone for ConstLabels {
    fn clone(&self) -> (labels: ConstLabels)
        ensures
            labels@ == self@,
    {
        proof {
            use_type_invariant(self);
        }
        let mut pairs: Vec<LabelPair> = Vec::new();
        let mut at: usize = 0;
        while at < self.pairs.len()
            invariant
                at <= self.pairs@.len(),
                pairs@ == self.pairs@.take(at as int),
            decreases self.pairs@.len() - at,
        {
            pairs.push(self.pairs[at].clone());
            proof {
                assert(pairs@ =~= self.pairs@.take(at + 1));
            }
            at += 1;
        }
        proof {
            assert(pairs@ =~= self.pairs@);
        }
        ConstLabels { pairs }
    }
}

} // verus!
