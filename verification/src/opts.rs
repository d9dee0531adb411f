//! Options for creating a metric, built up step by step.

use crate::const_labels::ConstLabels;
use crate::desc::{copy_strings, Desc, DescValidator, DescView};
use crate::labels::{AsStrings, Labels};
use crate::naming::{build_fq_name, fq_name_of};
use crate::relay::{hand_back, handed_back};
use crate::text::AsText;
use vstd::prelude::*;
use vstd::std_specs::convert::FromSpecImpl;

verus! {

/// What a set of options says, as plain values.
pub ghost struct OptsView {
    pub namespace: Seq<char>,
    pub subsystem: Seq<char>,
    pub name: Seq<char>,
    pub help: Seq<char>,
    pub const_labels: Map<Seq<char>, Seq<char>>,
    pub variable_labels: Seq<Seq<char>>,
}

impl OptsView {
    /// The fully-qualified name that these options give a metric.
    pub open spec fn fq_name(self) -> Seq<char> {
        fq_name_of(self.namespace, self.subsystem, self.name)
    }

    /// The descriptor that these options give a metric.
    pub open spec fn describe(self) -> DescView {
        DescView {
            fq_name: self.fq_name(),
            help: self.help,
            variable_labels: self.variable_labels,
            const_labels: self.const_labels,
        }
    }
}

/// The options for creating a metric.
#[derive(Debug)]
pub struct Opts<L: Labels> {
    /// `namespace`, `subsystem` and `name` are the components of the fully-qualified name
    /// of the metric. Only `name` is mandatory; the others merely help to structure the
    /// name.
    pub namespace: String,
    pub subsystem: String,
    pub name: String,
    /// What the metric measures. Mandatory. Metrics with the same fully-qualified name
    /// must have the same help text.
    pub help: String,
    /// Labels with a fixed value, attached to every sample of the metric. Their names must
    /// not occur among the variable labels; this is not checked here but left to whoever
    /// registers the descriptor.
    pub const_labels: ConstLabels,
    /// The names of the labels whose values vary from sample to sample.
    pub variable_labels: L::Owned,
}

impl<L: Labels> View for Opts<L> {
    type V = OptsView;

    open spec fn view(&self) -> OptsView {
        OptsView {
            namespace: self.namespace@,
            subsystem: self.subsystem@,
            name: self.name@,
            help: self.help@,
            const_labels: self.const_labels@,
            variable_labels: self.variable_labels.strings(),
        }
    }
}

impl Opts<[&'static str; 0]> {
    /// Options with the given name and help text, and nothing else: no namespace, no
    /// subsystem, no constant labels and no variable labels.
    pub fn new<A: AsText, B: AsText>(name: A, help: B) -> (opts: Self)
        ensures
            opts@ == (OptsView {
                namespace: Seq::empty(),
                subsystem: Seq::empty(),
                name: name.text(),
                help: help.text(),
                const_labels: Map::empty(),
                variable_labels: Seq::empty(),
            }),
    {
        let no_labels: [&'static str; 0] = [];
        let opts = Opts::new_with_label(name, help, no_labels);
        proof {
            assert(opts@.variable_labels =~= Seq::empty());
        }
        opts
    }
}

impl<L: Labels> Opts<L> {
    /// Options with the given name, help text and variable labels, and nothing else.
    pub fn new_with_label<A: AsText, B: AsText>(name: A, help: B, variable_labels: L) -> (opts:
        Self)
        ensures
            opts@ == (OptsView {
                namespace: Seq::empty(),
                subsystem: Seq::empty(),
                name: name.text(),
                help: help.text(),
                const_labels: Map::empty(),
                variable_labels: variable_labels.names(),
            }),
    {
        Opts {
            namespace: String::new(),
            subsystem: String::new(),
            name: name.as_text().to_owned(),
            help: help.as_text().to_owned(),
            const_labels: ConstLabels::new(),
            variable_labels: variable_labels.to_owned(),
        }
    }

    /// Sets the namespace.
    pub fn namespace<S: AsText>(self, namespace: S) -> (opts: Self)
        ensures
            opts@ == (OptsView { namespace: namespace.text(), ..self@ }),
    {
        let mut opts = self;
        opts.namespace = namespace.as_text().to_owned();
        opts
    }

    /// Sets the subsystem.
    pub fn subsystem<S: AsText>(self, subsystem: S) -> (opts: Self)
        ensures
            opts@ == (OptsView { subsystem: subsystem.text(), ..self@ }),
    {
        let mut opts = self;
        opts.subsystem = subsystem.as_text().to_owned();
        opts
    }

    /// Replaces the constant labels as a whole.
    pub fn const_labels(self, const_labels: ConstLabels) -> (opts: Self)
        ensures
            opts@ == (OptsView { const_labels: const_labels@, ..self@ }),
    {
        let mut opts = self;
        opts.const_labels = const_labels;
        opts
    }

    /// Sets one constant label, whether or not there was one of that name.
    pub fn const_label<A: AsText, B: AsText>(self, name: A, value: B) -> (opts: Self)
        ensures
            opts@ == (OptsView {
                const_labels: self@.const_labels.insert(name.text(), value.text()),
                ..self@
            }),
    {
        let mut opts = self;
        opts.const_labels.insert(name.as_text().to_owned(), value.as_text().to_owned());
        opts
    }

    /// Replaces the variable labels.
    pub fn variable_labels(self, variable_labels: L) -> (opts: Self)
        ensures
            opts@ == (OptsView { variable_labels: variable_labels.names(), ..self@ }),
    {
        let mut opts = self;
        opts.variable_labels = variable_labels.to_owned();
        opts
    }

    /// The fully-qualified name of the metric. The options stay as they are.
    pub fn fq_name(&self) -> (fq_name: String)
        ensures
            fq_name@ == self@.fq_name(),
    {
        build_fq_name(self.namespace.as_str(), self.subsystem.as_str(), self.name.as_str())
    }

    /// The descriptor of the metric: its fully-qualified name, its help text, the names of
    /// its variable labels in order, and a copy of its constant labels.
    pub fn describe(&self) -> (desc: Desc)
        ensures
            desc@ == self@.describe(),
    {
        let desc = Desc {
            fq_name: self.fq_name(),
            help: self.help.clone(),
            variable_labels: copy_strings(self.variable_labels.as_strings()),
            const_labels: self.const_labels.clone(),
        };
        proof {
            assert(desc@.variable_labels =~= self@.variable_labels);
        }
        desc
    }

    /// The descriptor of the metric, once `validator` has accepted it, and the validator's
    /// error where it has not.
    pub fn try_describe<V: DescValidator>(&self, validator: &V) -> (described: Result<
        Desc,
        V::Error,
    >)
        ensures
            exists|desc: Desc, outcome: Result<(), V::Error>|
                desc@ == self@.describe() && #[trigger] call_ensures(
                    V::validate,
                    (validator, &desc),
                    outcome,
                ) && described == handed_back(desc, outcome),
    {
        let desc = self.describe();
        let outcome = validator.validate(&desc);
        hand_back(desc, outcome)
    }
}

impl<L: Labels> Clone for Opts<L> {
    /// Options that say the same.
    fn clone(&self) -> (opts: Self)
        ensures
            opts@ == self@,
    {
        let opts = Opts {
            namespace: self.namespace.clone(),
            subsystem: self.subsystem.clone(),
            name: self.name.clone(),
            help: self.help.clone(),
            const_labels: self.const_labels.clone(),
            variable_labels: self.variable_labels.clone(),
        };
        proof {
            self.variable_labels.lemma_clone_keeps_strings(&opts.variable_labels);
        }
        opts
    }
}

impl<A: AsText, B: AsText> From<(A, B)> for Opts<[&'static str; 0]> {
    /// Options from a name and a help text, as `Opts::new` makes them.
    fn from(options: (A, B)) -> (opts: Self)
        ensures
            opts@ == (OptsView {
                namespace: Seq::empty(),
                subsystem: Seq::empty(),
                name: options.0.text(),
                help: options.1.text(),
                const_labels: Map::empty(),
                variable_labels: Seq::empty(),
            }),
    {
        Opts::new(options.0, options.1)
    }
}

impl<A: AsText, B: AsText> FromSpecImpl<(A, B)> for Opts<[&'static str; 0]> {
    /// The conversion is stated over the view of its result, not as one value.
    open spec fn obeys_from_spec() -> bool {
        false
    }

    open spec fn from_spec(options: (A, B)) -> Self {
        arbitrary()
    }
}

impl<A: AsText, B: AsText, L: Labels> From<(A, B, L)> for Opts<L> {
    /// Options from a name, a help text and variable labels, as `Opts::new_with_label`
    /// makes them.
    fn from(options: (A, B, L)) -> (opts: Self)
        ensures
            opts@ == (OptsView {
                namespace: Seq::empty(),
                subsystem: Seq::empty(),
                name: options.0.text(),
                help: options.1.text(),
                const_labels: Map::empty(),
                variable_labels: options.2.names(),
            }),
    {
        Opts::new_with_label(options.0, options.1, options.2)
    }
}

impl<A: AsText, B: AsText, L: Labels> FromSpecImpl<(A, B, L)> for Opts<L> {
    /// The conversion is stated over the view of its result, not as one value.
    open spec fn obeys_from_spec() -> bool {
        false
    }

    open spec fn from_spec(options: (A, B, L)) -> Self {
        arbitrary()
    }
}

/// Asking for the fully-qualified name leaves the options as they are and gives the same
/// name every time: whatever two calls of `fq_name` on the same options hand out, the two
/// names are the same text.
pub proof fn lemma_fq_name_is_stable<L: Labels>(opts: Opts<L>, first: String, second: String)
    requires
        call_ensures(Opts::<L>::fq_name, (&opts,), first),
        call_ensures(Opts::<L>::fq_name, (&opts,), second),
    ensures
        first@ == second@,
        first@ == opts@.fq_name(),
{
}

} // verus!
