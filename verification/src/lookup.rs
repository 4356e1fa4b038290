//! Lookup by name. Arenas are small, so a name is resolved by a scan from the
//! front, and where a name occurs more than once its first bearer is meant.

use vstd::prelude::*;

verus! {

/// The texts of the names, in their order.
pub open spec fn texts(names: Seq<String>) -> Seq<Seq<char>> {
    names.map_values(|n: String| n@)
}

/// No name occurs twice.
pub open spec fn distinct(names: Seq<Seq<char>>) -> bool {
    forall|i: int, j: int| 0 <= i < j < names.len() ==> names[i] != names[j]
}

/// `i` is the first place in `names` that holds `name`.
pub open spec fn is_first_at(names: Seq<Seq<char>>, name: Seq<char>, i: int) -> bool {
    &&& 0 <= i < names.len()
    &&& names[i] == name
    &&& forall|j: int| 0 <= j < i ==> names[j] != name
}

/// The first place in `names` that holds `name`, if there is one.
pub open spec fn position(names: Seq<Seq<char>>, name: Seq<char>) -> Option<int> {
    if exists|i: int| is_first_at(names, name, i) {
        Some(choose|i: int| is_first_at(names, name, i))
    } else {
        None
    }
}

/// A first place is the only first place.
pub proof fn lemma_position_found(names: Seq<Seq<char>>, name: Seq<char>, i: int)
    requires
        is_first_at(names, name, i),
    ensures
        position(names, name) == Some(i),
{
    let k = choose|k: int| is_first_at(names, name, k);
    if k < i {
        assert(names[k] != name);
    } else if i < k {
        assert(names[i] != name);
    }
}

/// A name that no place holds has no position.
pub proof fn lemma_position_absent(names: Seq<Seq<char>>, name: Seq<char>)
    requires
        forall|j: int| 0 <= j < names.len() ==> names[j] != name,
    ensures
        position(names, name) is None,
{
}

/// What a position says of the place it names.
pub proof fn lemma_position_holds(names: Seq<Seq<char>>, name: Seq<char>)
    ensures
        position(names, name) matches Some(i) ==> is_first_at(names, name, i),
        position(names, name) is None ==> forall|j: int| 0 <= j < names.len() ==> names[j] != name,
{
    if position(names, name) is None {
        assert forall|j: int| 0 <= j < names.len() implies names[j] != name by {
            if names[j] == name {
                lemma_some_first(names, name, j);
            }
        }
    }
}

/// Where a name occurs at all, it occurs somewhere first.
proof fn lemma_some_first(names: Seq<Seq<char>>, name: Seq<char>, j: int)
    requires
        0 <= j < names.len(),
        names[j] == name,
    ensures
        exists|i: int| is_first_at(names, name, i),
    decreases j,
{
    if forall|k: int| 0 <= k < j ==> names[k] != name {
        assert(is_first_at(names, name, j));
    } else {
        let k = choose|k: int| 0 <= k < j && names[k] == name;
        lemma_some_first(names, name, k);
    }
}

/// Among names of which none occurs twice, the place of a name is the one
/// place that holds it: it does not matter from which end one looks.
pub proof fn lemma_distinct_position(names: Seq<Seq<char>>, name: Seq<char>, i: int)
    requires
        distinct(names),
        0 <= i < names.len(),
        names[i] == name,
    ensures
        position(names, name) == Some(i),
        forall|j: int| 0 <= j < names.len() && names[j] == name ==> j == i,
{
    assert(is_first_at(names, name, i));
    lemma_position_found(names, name, i);
}

/// The first place in `names` that holds `name`.
pub fn find_name(names: &Vec<String>, name: &str) -> (found: Option<usize>)
    ensures
        match found {
            Some(i) => position(texts(names@), name@) == Some(i as int),
            None => position(texts(names@), name@) is None,
        },
        found matches Some(i) ==> i < names.len(),
{
    let ghost all = texts(names@);
    let wanted = name.to_owned();
    let mut i: usize = 0;
    while i < names.len()
        invariant
            i <= names.len(),
            wanted@ == name@,
            all == texts(names@),
            forall|j: int| 0 <= j < i ==> all[j] != name@,
        decreases names.len() - i,
    {
        if names[i] == wanted {
            proof {
                lemma_position_found(all, name@, i as int);
            }
            return Some(i);
        }
        i += 1;
    }
    proof {
        lemma_position_absent(all, name@);
    }
    None
}

} // verus!
