//! The names under which a job's results are reported.

use crate::package::NameVersion;
use vstd::prelude::*;

verus! {

/// The label of a package: its name, an `@`, and its version specifier.
pub open spec fn label_of(key: NameVersion) -> Seq<char> {
    key.0 + "@"@ + key.1
}

/// The labels of `keys`, in their order.
pub open spec fn labels_of(keys: Seq<NameVersion>) -> Seq<Seq<char>> {
    keys.map_values(|key: NameVersion| label_of(key))
}

/// Writes the label of a package.
pub fn package_label(name: &str, version: &str) -> (r: String)
    ensures
        r@ == label_of((name@, version@)),
{
    let mut r = String::from_str(name);
    r.append("@");
    r.append(version);
    r
}

/// Writes the labels of the children of a node.
pub fn package_labels(keys: &Vec<(String, String)>) -> (r: Vec<String>)
    ensures
        r.deep_view() == labels_of(keys.deep_view()),
{
    let mut out: Vec<String> = Vec::new();
    let mut i: usize = 0;
    while i < keys.len()
        invariant
            i <= keys.len(),
            out.len() == i,
            forall|k: int| 0 <= k < i ==> (#[trigger] out[k])@ == label_of(keys[k].deep_view()),
        decreases keys.len() - i,
    {
        out.push(package_label(keys[i].0.as_str(), keys[i].1.as_str()));
        i += 1;
    }
    assert(out.deep_view() =~= labels_of(keys.deep_view()));
    out
}

} // verus!
