//! Lists of names, as the scheduler and the task factory keep them.

use vstd::prelude::*;

verus! {

/// The character sequences of a list of strings, in order.
pub open spec fn views(names: Seq<String>) -> Seq<Seq<char>> {
    names.map_values(|name: String| name@)
}

/// A list to which a name is added holds that name and those it held
/// before; it stays free of repetitions if the name is new.
pub proof fn lemma_pushed_name(names: Seq<Seq<char>>, name: Seq<char>)
    ensures
        forall|other: Seq<char>|
            names.push(name).contains(other) <==> (other == name || names.contains(other)),
        names.no_duplicates() && !names.contains(name) ==> names.push(name).no_duplicates(),
{
    let after = names.push(name);
    assert(after[names.len() as int] == name);
    assert forall|other: Seq<char>| after.contains(other) <==> (other == name || names.contains(
        other,
    )) by {
        if after.contains(other) {
            let j = choose|j: int| 0 <= j < after.len() && after[j] == other;
            if j < names.len() {
                assert(names[j] == other);
            }
        }
        if names.contains(other) {
            let j = choose|j: int| 0 <= j < names.len() && names[j] == other;
            assert(after[j] == other);
        }
    }
}

} // verus!
