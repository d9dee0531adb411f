//! Composition of fully-qualified metric names.

use vstd::prelude::*;
use vstd::string::StringExecFns;

verus! {

/// The separator placed between the components of a fully-qualified name.
pub open spec fn separator() -> Seq<char> {
    seq!['_']
}

/// A name component followed by the separator, or nothing when the component is empty.
pub open spec fn prefix_of(part: Seq<char>) -> Seq<char> {
    if part.len() == 0 {
        Seq::empty()
    } else {
        part + separator()
    }
}

/// The fully-qualified name made of `namespace`, `subsystem` and `name`: empty when `name`
/// is empty, otherwise the non-empty components joined by the separator, in this order.
pub open spec fn fq_name_of(namespace: Seq<char>, subsystem: Seq<char>, name: Seq<char>) -> Seq<
    char,
> {
    if name.len() == 0 {
        Seq::empty()
    } else {
        prefix_of(namespace) + prefix_of(subsystem) + name
    }
}

/// The fully-qualified name, case by case: an empty `name` gives the empty name; a
/// `name` alone stands for itself; a namespace or a subsystem stands before it, followed
/// by the separator; and where both are there, the namespace comes first.
pub proof fn lemma_fq_name_cases(namespace: Seq<char>, subsystem: Seq<char>, name: Seq<char>)
    ensures
        name.len() == 0 ==> fq_name_of(namespace, subsystem, name) == Seq::<char>::empty(),
        name.len() > 0 && namespace.len() > 0 && subsystem.len() > 0 ==> fq_name_of(
            namespace,
            subsystem,
            name,
        ) == namespace + separator() + subsystem + separator() + name,
        name.len() > 0 && namespace.len() > 0 && subsystem.len() == 0 ==> fq_name_of(
            namespace,
            subsystem,
            name,
        ) == namespace + separator() + name,
        name.len() > 0 && namespace.len() == 0 && subsystem.len() > 0 ==> fq_name_of(
            namespace,
            subsystem,
            name,
        ) == subsystem + separator() + name,
        name.len() > 0 && namespace.len() == 0 && subsystem.len() == 0 ==> fq_name_of(
            namespace,
            subsystem,
            name,
        ) == name,
{
    let empty = Seq::<char>::empty();
    assert(empty + empty + name =~= name);
    assert(empty + (subsystem + separator()) + name =~= subsystem + separator() + name);
    assert((namespace + separator()) + empty + name =~= namespace + separator() + name);
    assert((namespace + separator()) + (subsystem + separator()) + name =~= namespace + separator()
        + subsystem + separator() + name);
}

/// The fully-qualified name is empty exactly when `name` is: no namespace and no
/// subsystem can stand in for a missing name, and none can hide a name that is there.
pub proof fn lemma_fq_name_empty_iff_name_empty(
    namespace: Seq<char>,
    subsystem: Seq<char>,
    name: Seq<char>,
)
    ensures
        fq_name_of(namespace, subsystem, name).len() == 0 <==> name.len() == 0,
{
}

/// Joins the three name components by `_`. Empty components are left out, and an empty
/// `name` gives the empty string whatever the other two hold.
pub fn build_fq_name(namespace: &str, subsystem: &str, name: &str) -> (fq_name: String)
    ensures
        fq_name@ == fq_name_of(namespace@, subsystem@, name@),
{
    let mut fq_name = String::new();
    if name.is_empty() {
        return fq_name;
    }
    proof {
        reveal_strlit("_");
    }
    if !namespace.is_empty() {
        fq_name.append(namespace);
        fq_name.append("_");
    }
    if !subsystem.is_empty() {
        fq_name.append(subsystem);
        fq_name.append("_");
    }
    fq_name.append(name);
    fq_name
}

} // verus!
