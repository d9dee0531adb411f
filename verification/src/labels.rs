//! Label sets: ordered collections of label names whose number is fixed by their type.

use crate::text::AsText;
use std::fmt::Debug;
use std::slice::Iter;
use vstd::prelude::*;
use vstd::std_specs::iter::IteratorSpec;

verus! {

/// A value that can be read as a slice of owned strings.
pub trait AsStrings: Clone {
    /// The texts this value stands for, in order.
    spec fn strings(&self) -> Seq<Seq<char>>;

    /// Borrows the value as a slice of strings.
    fn as_strings(&self) -> (s: &[String])
        ensures
            s@.len() == self.strings().len(),
            forall|i: int| 0 <= i < s@.len() ==> (#[trigger] s@[i])@ == self.strings()[i],
    ;

    /// A clone stands for the same texts.
    proof fn lemma_clone_keeps_strings(&self, copy: &Self)
        requires
            cloned(*self, *copy),
        ensures
            copy.strings() == self.strings(),
    ;
}

impl<const N: usize> AsStrings for [String; N] {
    open spec fn strings(&self) -> Seq<Seq<char>> {
        Seq::new(N as nat, |i: int| self@[i]@)
    }

    fn as_strings(&self) -> (s: &[String]) {
        self.as_slice()
    }

    proof fn lemma_clone_keeps_strings(&self, copy: &Self) {
        assert(copy.strings() =~= self.strings());
    }
}

/// A label set: an ordered collection of label names whose number is fixed by its type.
pub trait Labels: Debug + Clone + Send + Sync {
    /// What a single label name is held as.
    type Item: AsText + Debug + Clone + Send + Sync;

    /// The label set with every name held as an owned string.
    type Owned: AsStrings + Debug + Clone + Send + Sync;

    /// The label names, in order.
    spec fn names(&self) -> Seq<Seq<char>>;

    /// The label names as a borrowed slice.
    fn as_slice(&self) -> (s: &[Self::Item])
        ensures
            s@.len() == self.names().len(),
            forall|i: int| 0 <= i < s@.len() ==> (#[trigger] s@[i]).text() == self.names()[i],
    ;

    /// The label set with every name copied into an owned string: as many names, equal to
    /// the borrowed ones, in the same order.
    fn to_owned(&self) -> (owned: Self::Owned)
        ensures
            owned.strings() == self.names(),
    ;

    /// An iterator over the label names, in order.
    fn iter(&self) -> (names: Iter<'_, Self::Item>)
        ensures
            names.remaining().len() == self.names().len(),
            forall|i: int|
                0 <= i < self.names().len() ==> (#[trigger] names.remaining()[i]).text()
                    == self.names()[i],
    {
        broadcast use vstd::std_specs::slice::axiom_spec_slice_iter;

        self.as_slice().iter()
    }
}

/// The names that an array of label names stands for.
pub open spec fn array_names<T: AsText, const N: usize>(labels: [T; N]) -> Seq<Seq<char>> {
    Seq::new(N as nat, |i: int| labels@[i].text())
}

/// An array of `N` label names and its owned form say the same: each holds exactly `N`
/// names, and the name at each place of the owned form is the text of the item at that
/// place of the array.
pub proof fn lemma_owned_round_trip<T: AsText, const N: usize>(labels: [T; N], owned: [String; N])
    requires
        owned.strings() == array_names(labels),
    ensures
        array_names(labels).len() == N,
        owned@.len() == N,
        forall|i: int| 0 <= i < N ==> (#[trigger] owned@[i])@ == labels@[i].text(),
{
    assert forall|i: int| 0 <= i < N implies (#[trigger] owned@[i])@ == labels@[i].text() by {
        assert(owned.strings()[i] == array_names(labels)[i]);
    }
}

/// Borrows an array of label names as a slice holding the same names.
fn borrow_names<T: AsText, const N: usize>(labels: &[T; N]) -> (s: &[T])
    ensures
        s@.len() == array_names(*labels).len(),
        forall|i: int| 0 <= i < s@.len() ==> (#[trigger] s@[i]).text() == array_names(*labels)[i],
{
    let s = labels.as_slice();
    assert(s@.len() == N);
    s
}

impl<T: AsText + Debug + Clone + Send + Sync> Labels for [T; 0] {
    type Item = T;

    type Owned = [String; 0];

    open spec fn names(&self) -> Seq<Seq<char>> {
        array_names(*self)
    }

    fn as_slice(&self) -> (s: &[T]) {
        assert(self.names() == array_names(*self));
        borrow_names(self)
    }

    fn to_owned(&self) -> (owned: [String; 0]) {
        let owned: [String; 0] = [];
        assert(owned.strings() =~= self.names());
        owned
    }
}

impl<T: AsText + Debug + Clone + Send + Sync> Labels for [T; 1] {
    type Item = T;

    type Owned = [String; 1];

    open spec fn names(&self) -> Seq<Seq<char>> {
        array_names(*self)
    }

    fn as_slice(&self) -> (s: &[T]) {
        assert(self.names() == array_names(*self));
        borrow_names(self)
    }

    fn to_owned(&self) -> (owned: [String; 1]) {
        let owned: [String; 1] = [self[0].as_text().to_owned()];
        assert(owned.strings() =~= self.names());
        owned
    }
}

impl<T: AsText + Debug + Clone + Send + Sync> Labels for [T; 2] {
    type Item = T;

    type Owned = [String; 2];

    open spec fn names(&self) -> Seq<Seq<char>> {
        array_names(*self)
    }

    fn as_slice(&self) -> (s: &[T]) {
        assert(self.names() == array_names(*self));
        borrow_names(self)
    }

    fn to_owned(&self) -> (owned: [String; 2]) {
        let owned: [String; 2] = [self[0].as_text().to_owned(), self[1].as_text().to_owned()];
        assert(owned.strings() =~= self.names());
        owned
    }
}

impl<T: AsText + Debug + Clone + Send + Sync> Labels for [T; 3] {
    type Item = T;

    type Owned = [String; 3];

    open spec fn names(&self) -> Seq<Seq<char>> {
        array_names(*self)
    }

    fn as_slice(&self) -> (s: &[T]) {
        assert(self.names() == array_names(*self));
        borrow_names(self)
    }

    fn to_owned(&self) -> (owned: [String; 3]) {
        let owned: [String; 3] = [
            self[0].as_text().to_owned(),
            self[1].as_text().to_owned(),
            self[2].as_text().to_owned(),
        ];
        assert(owned.strings() =~= self.names());
        owned
    }
}

impl<T: AsText + Debug + Clone + Send + Sync> Labels for [T; 4] {
    type Item = T;

    type Owned = [String; 4];

    open spec fn names(&self) -> Seq<Seq<char>> {
        array_names(*self)
    }

    fn as_slice(&self) -> (s: &[T]) {
        assert(self.names() == array_names(*self));
        borrow_names(self)
    }

    fn to_owned(&self) -> (owned: [String; 4]) {
        let owned: [String; 4] = [
            self[0].as_text().to_owned(),
            self[1].as_text().to_owned(),
            self[2].as_text().to_owned(),
            self[3].as_text().to_owned(),
        ];
        assert(owned.strings() =~= self.names());
        owned
    }
}

} // verus!
