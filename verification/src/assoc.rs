//! Lists of named values, searched by name.

use vstd::prelude::*;
use crate::text::same_text;

verus! {

/// The place of the first name in the list that is the given name.
pub open spec fn position(names: Seq<Seq<char>>, name: Seq<char>) -> Option<int>
    decreases names.len(),
{
    if names.len() == 0 {
        None
    } else {
        match position(names.drop_last(), name) {
            Some(i) => Some(i),
            None => if names.last() == name {
                Some(names.len() - 1)
            } else {
                None
            },
        }
    }
}

/// The names of a list of named values.
pub open spec fn firsts<V>(list: Seq<(Seq<char>, V)>) -> Seq<Seq<char>> {
    Seq::new(list.len(), |i: int| list[i].0)
}

/// The names of a list of named values, as texts.
pub open spec fn keys<V>(list: Seq<(String, V)>) -> Seq<Seq<char>> {
    Seq::new(list.len(), |i: int| list[i].0@)
}

/// The place that `position` gives holds the name, no earlier place does,
/// and where it gives none no place holds the name.
pub proof fn lemma_position(names: Seq<Seq<char>>, name: Seq<char>)
    ensures
        match position(names, name) {
            Some(i) => 0 <= i < names.len() && names[i] == name && forall|k: int|
                0 <= k < i ==> names[k] != name,
            None => forall|k: int| 0 <= k < names.len() ==> names[k] != name,
        },
    decreases names.len(),
{
    if names.len() > 0 {
        let front = names.drop_last();
        lemma_position(front, name);
        assert forall|k: int| 0 <= k < front.len() implies front[k] == names[k] by {}
        match position(front, name) {
            Some(i) => {
                assert(forall|k: int| 0 <= k < i ==> front[k] != name);
            },
            None => {
                assert(forall|k: int| 0 <= k < front.len() ==> front[k] != name);
            },
        }
    }
}

/// The place of the first value of the given name.
pub fn find_key<V>(list: &Vec<(String, V)>, name: &str) -> (r: Option<usize>)
    ensures
        match r {
            Some(i) => i < list.len() && position(keys(list@), name@) == Some(i as int),
            None => position(keys(list@), name@) is None,
        },
{
    let ghost all = keys(list@);
    let mut i: usize = 0;
    while i < list.len()
        invariant
            i <= list.len(),
            all == keys(list@),
            forall|k: int| 0 <= k < i ==> list[k].0@ != name@,
        decreases list.len() - i,
    {
        if same_text(list[i].0.as_str(), name) {
            proof {
                lemma_position(all, name@);
                assert(all[i as int] == name@);
                if position(all, name@)->0 < i {
                    assert(all[position(all, name@)->0] == list[position(all, name@)->0].0@);
                }
            }
            return Some(i);
        }
        i += 1;
    }
    proof {
        lemma_position(all, name@);
        if position(all, name@) is Some {
            let k = position(all, name@)->0;
            assert(all[k] == list[k].0@);
        }
    }
    None
}

} // verus!
