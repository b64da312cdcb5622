use vstd::prelude::*;

verus! {

/// What a search for the first entry named `name` in `names` finds when the
/// entry at `i` carries that name and no earlier entry does.
pub proof fn lemma_first_index_at(names: Seq<Seq<char>>, name: Seq<char>, i: int)
    requires
        0 <= i < names.len(),
        names[i] == name,
        forall|j: int| 0 <= j < i ==> names[j] != name,
    ensures
        names.index_of_first(name) == Some(i),
{
    names.index_of_first_ensures(name);
    assert(names.contains(name));
    match names.index_of_first(name) {
        Some(k) => {
            if k < i {
                assert(names[k] != name);
            } else if k > i {
                assert(names[i] != name);
            }
        },
        None => {},
    }
}

/// A search for a name that no entry carries finds nothing.
pub proof fn lemma_first_index_none(names: Seq<Seq<char>>, name: Seq<char>)
    requires
        forall|j: int| 0 <= j < names.len() ==> names[j] != name,
    ensures
        names.index_of_first(name) is None,
{
    names.index_of_first_ensures(name);
    if names.contains(name) {
        let k = choose|k: int| 0 <= k < names.len() && names[k] == name;
        assert(names[k] != name);
    }
}

/// After a name is appended, a search for it finds an entry with that name,
/// and an earlier entry is found where one carried it already.
pub proof fn lemma_first_index_after_push(names: Seq<Seq<char>>, name: Seq<char>)
    ensures
        names.push(name).index_of_first(name) matches Some(i) && 0 <= i < names.len() + 1
            && names.push(name)[i] == name,
        names.index_of_first(name) matches Some(i) ==> names.push(name).index_of_first(name)
            == Some(i),
{
    let pushed = names.push(name);
    pushed.index_of_first_ensures(name);
    names.index_of_first_ensures(name);
    assert(pushed[names.len() as int] == name);
    assert(pushed.contains(name));
    match names.index_of_first(name) {
        Some(i) => {
            assert forall|j: int| 0 <= j < i implies pushed[j] != name by {
                assert(pushed[j] == names[j]);
            }
            lemma_first_index_at(pushed, name, i);
        },
        None => {},
    }
}

} // verus!
