//! Descriptors: the metadata that identifies a metric.

use crate::const_labels::ConstLabels;
use vstd::prelude::*;

verus! {

/// What a descriptor says, as plain values.
pub ghost struct DescView {
    pub fq_name: Seq<char>,
    pub help: Seq<char>,
    pub variable_labels: Seq<Seq<char>>,
    pub const_labels: Map<Seq<char>, Seq<char>>,
}

/// The texts that a list of strings holds, in order.
pub open spec fn texts_of(strings: Seq<String>) -> Seq<Seq<char>> {
    Seq::new(strings.len(), |i: int| strings[i]@)
}

/// The metadata of a metric: its fully-qualified name, its help text, the names of its
/// variable labels in order, and its constant labels.
///
/// A descriptor is plain data. Whether the name and the label names are well formed, and
/// whether a label name occurs both among the variable and among the constant labels, is
/// for whoever registers the descriptor to check.
#[derive(Debug)]
pub struct Desc {
    pub fq_name: String,
    pub help: String,
    pub variable_labels: Vec<String>,
    pub const_labels: ConstLabels,
}

impl View for Desc {
    type V = DescView;

    open spec fn view(&self) -> DescView {
        DescView {
            fq_name: self.fq_name@,
            help: self.help@,
            variable_labels: texts_of(self.variable_labels@),
            const_labels: self.const_labels@,
        }
    }
}

/// Whoever checks descriptors before they are used: that the names in them are well
/// formed, and that no label name occurs twice. What is acceptable is for the validator
/// alone to say.
pub trait DescValidator {
    /// Why a descriptor was turned down.
    type Error;

    /// Accepts `desc`, or says why not.
    fn validate(&self, desc: &Desc) -> Result<(), Self::Error>;
}

/// Copies a slice of strings into a vector.
pub fn copy_strings(strings: &[String]) -> (copy: Vec<String>)
    ensures
        texts_of(copy@) == texts_of(strings@),
{
    let mut copy: Vec<String> = Vec::new();
    let mut at: usize = 0;
    while at < strings.len()
        invariant
            at <= strings@.len(),
            copy@.len() == at,
            forall|i: int| 0 <= i < at ==> copy@[i]@ == strings@[i]@,
        decreases strings@.len() - at,
    {
        copy.push(strings[at].clone());
        at += 1;
    }
    proof {
        assert(texts_of(copy@) =~= texts_of(strings@));
    }
    copy
}

impl Clone for Desc {
    fn clone(&self) -> (desc: Desc)
        ensures
            desc@ == self@,
    {
        Desc {
            fq_name: self.fq_name.clone(),
            help: self.help.clone(),
            variable_labels: copy_strings(self.variable_labels.as_slice()),
            const_labels: self.const_labels.clone(),
        }
    }
}

} // verus!
