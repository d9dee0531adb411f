//! The naming, labelling and collector layer of a metrics library.
//!
//! A metric is known by its fully-qualified name, which [`naming`] composes from a
//! namespace, a subsystem and a name. Its labels come in two kinds: constant labels, a map
//! from names to fixed values ([`const_labels`]), and variable labels, of which only the
//! names are fixed, in a [`labels`] set whose size is part of its type. [`opts`] gathers
//! all of this step by step and turns it into a descriptor ([`desc`]). [`label_pair`]
//! holds a label with its value and the order in which such pairs are sorted, by name
//! alone. [`collector`] says what a source of metrics must offer, and how it is registered
//! with a registry and removed from it.
//!
//! The library holds no registry and checks no descriptor itself: both are handed in by
//! the caller, and what they answer is relayed as it is ([`relay`]).

pub mod collector;
pub mod const_labels;
pub mod desc;
pub mod label_pair;
pub mod labels;
pub mod naming;
pub mod opts;
pub mod relay;
pub mod text;

pub use crate::collector::{Collector, DefaultRegistry, Metric, Registry};
pub use crate::const_labels::ConstLabels;
pub use crate::desc::{Desc, DescValidator};
pub use crate::label_pair::LabelPair;
pub use crate::labels::{AsStrings, Labels};
pub use crate::naming::build_fq_name;
pub use crate::opts::Opts;
pub use crate::text::AsText;
