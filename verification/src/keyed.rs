//! Lists keyed by name, used where a map from names to values is needed: each name
//! occurs at most once, and the list is read as a map.
use vstd::prelude::*;
use crate::text::str_eq;

verus! {

/// No name occurs twice.
pub open spec fn keys_unique<V>(s: Seq<(String, V)>) -> bool {
    forall|i: int, j: int| 0 <= i < j < s.len() ==> #[trigger] s[i].0@ != #[trigger] s[j].0@
}

/// The list read as a map from names to values.
pub open spec fn to_map<V>(s: Seq<(String, V)>) -> Map<Seq<char>, V>
    decreases s.len(),
{
    if s.len() == 0 {
        Map::empty()
    } else {
        to_map(s.drop_last()).insert(s.last().0@, s.last().1)
    }
}

/// The map holds exactly the names of the list.
pub proof fn lemma_to_map_dom<V>(s: Seq<(String, V)>, k: Seq<char>)
    ensures
        to_map(s).dom().contains(k) <==> exists|i: int| 0 <= i < s.len() && #[trigger] s[i].0@ == k,
    decreases s.len(),
{
    if s.len() > 0 {
        lemma_to_map_dom(s.drop_last(), k);
        if to_map(s).dom().contains(k) && k != s.last().0@ {
            let i = choose|i: int| 0 <= i < s.drop_last().len() && #[trigger] s.drop_last()[i].0@ == k;
            assert(s[i].0@ == k);
        }
        if exists|i: int| 0 <= i < s.len() && #[trigger] s[i].0@ == k {
            let i = choose|i: int| 0 <= i < s.len() && #[trigger] s[i].0@ == k;
            if i < s.len() - 1 {
                assert(s.drop_last()[i].0@ == k);
            }
        }
    }
}

/// Each entry's value is the map's value of its name.
/// With unique names, the map has one key per entry, and finitely many.
pub proof fn lemma_to_map_len<V>(s: Seq<(String, V)>)
    requires
        keys_unique(s),
    ensures
        to_map(s).dom().finite(),
        to_map(s).dom().len() == s.len(),
    decreases s.len(),
{
    if s.len() > 0 {
        let t = s.drop_last();
        assert(keys_unique(t)) by {
            assert forall|a: int, b: int| 0 <= a < b < t.len() implies #[trigger] t[a].0@ != #[trigger] t[b].0@ by {
                assert(s[a].0@ != s[b].0@);
            }
        }
        lemma_to_map_len(t);
        lemma_to_map_dom(t, s.last().0@);
        if to_map(t).dom().contains(s.last().0@) {
            let i = choose|i: int| 0 <= i < t.len() && #[trigger] t[i].0@ == s.last().0@;
            assert(s[i].0@ != s[s.len() - 1].0@);
        }
    }
}

pub proof fn lemma_to_map_index<V>(s: Seq<(String, V)>, i: int)
    requires
        keys_unique(s),
        0 <= i < s.len(),
    ensures
        to_map(s).dom().contains(s[i].0@),
        to_map(s)[s[i].0@] == s[i].1,
    decreases s.len(),
{
    if i < s.len() - 1 {
        assert(keys_unique(s.drop_last()));
        lemma_to_map_index(s.drop_last(), i);
        assert(s.drop_last()[i] == s[i]);
        assert(s[i].0@ != s[s.len() - 1].0@);
    }
}

/// Replacing an entry's value updates the map at its name.
pub proof fn lemma_to_map_update<V>(s: Seq<(String, V)>, i: int, e: (String, V))
    requires
        keys_unique(s),
        0 <= i < s.len(),
        e.0@ == s[i].0@,
    ensures
        to_map(s.update(i, e)) == to_map(s).insert(e.0@, e.1),
        keys_unique(s.update(i, e)),
    decreases s.len(),
{
    let t = s.update(i, e);
    assert(keys_unique(t)) by {
        assert forall|a: int, b: int| 0 <= a < b < t.len() implies #[trigger] t[a].0@ != #[trigger] t[b].0@ by {
            assert(s[a].0@ != s[b].0@);
        }
    }
    if i == s.len() - 1 {
        assert(t.drop_last() == s.drop_last());
        lemma_to_map_dom(s.drop_last(), e.0@);
        assert(to_map(s) == to_map(s.drop_last()).insert(s.last().0@, s.last().1));
        assert(to_map(t) =~= to_map(s).insert(e.0@, e.1));
    } else {
        assert(keys_unique(s.drop_last()));
        lemma_to_map_update(s.drop_last(), i, e);
        assert(t.drop_last() == s.drop_last().update(i, e));
        assert(s[i].0@ != s.last().0@);
        assert(to_map(t) =~= to_map(s).insert(e.0@, e.1));
    }
}

/// Appending an entry with a new name keeps the names unique and adds it to the map.
pub proof fn lemma_to_map_push<V>(s: Seq<(String, V)>, e: (String, V))
    requires
        keys_unique(s),
        forall|i: int| 0 <= i < s.len() ==> s[i].0@ != e.0@,
    ensures
        to_map(s.push(e)) == to_map(s).insert(e.0@, e.1),
        keys_unique(s.push(e)),
{
    assert(s.push(e).drop_last() == s);
    let t = s.push(e);
    assert forall|a: int, b: int| 0 <= a < b < t.len() implies #[trigger] t[a].0@ != #[trigger] t[b].0@ by {
        if b < s.len() {
            assert(s[a].0@ != s[b].0@);
        }
    }
}

/// Removing an entry removes its name from the map.
pub proof fn lemma_to_map_remove<V>(s: Seq<(String, V)>, i: int)
    requires
        keys_unique(s),
        0 <= i < s.len(),
    ensures
        to_map(s.remove(i)) == to_map(s).remove(s[i].0@),
        keys_unique(s.remove(i)),
    decreases s.len(),
{
    let t = s.remove(i);
    assert(keys_unique(t)) by {
        assert forall|a: int, b: int| 0 <= a < b < t.len() implies #[trigger] t[a].0@ != #[trigger] t[b].0@ by {
            let a2 = if a < i { a } else { a + 1 };
            let b2 = if b < i { b } else { b + 1 };
            assert(t[a] == s[a2]);
            assert(t[b] == s[b2]);
            assert(s[a2].0@ != s[b2].0@);
        }
    }
    if i == s.len() - 1 {
        assert(t == s.drop_last());
        lemma_to_map_dom(s.drop_last(), s[i].0@);
        assert(to_map(t) =~= to_map(s).remove(s[i].0@));
    } else {
        assert(keys_unique(s.drop_last()));
        lemma_to_map_remove(s.drop_last(), i);
        assert(t.drop_last() == s.drop_last().remove(i));
        assert(t.last() == s.last());
        assert(s[i].0@ != s.last().0@);
        assert(to_map(t) =~= to_map(s).remove(s[i].0@));
    }
}

/// The position of `key` in the list.
pub fn find_key<V>(v: &Vec<(String, V)>, key: &str) -> (r: Option<usize>)
    ensures
        r is Some ==> r.unwrap() < v@.len() && v@[r.unwrap() as int].0@ == key@,
        r is None ==> forall|i: int| 0 <= i < v@.len() ==> v@[i].0@ != key@,
{
    let mut i: usize = 0;
    while i < v.len()
        invariant
            i <= v@.len(),
            forall|j: int| 0 <= j < i ==> v@[j].0@ != key@,
        decreases v@.len() - i,
    {
        if str_eq(v[i].0.as_str(), key) {
            return Some(i);
        }
        i = i + 1;
    }
    None
}

/// The texts of a list of names.
pub open spec fn name_seq(v: Seq<String>) -> Seq<Seq<char>> {
    v.map_values(|x: String| x@)
}

/// The position of `name` in a list of names.
pub fn find_name(v: &Vec<String>, name: &str) -> (r: Option<usize>)
    ensures
        r is Some ==> r.unwrap() < v@.len() && v@[r.unwrap() as int]@ == name@,
        r is None ==> !name_seq(v@).contains(name@),
{
    let mut i: usize = 0;
    while i < v.len()
        invariant
            i <= v@.len(),
            forall|j: int| 0 <= j < i ==> v@[j]@ != name@,
        decreases v@.len() - i,
    {
        if str_eq(v[i].as_str(), name) {
            return Some(i);
        }
        i = i + 1;
    }
    proof {
        if name_seq(v@).contains(name@) {
            let j = choose|j: int| 0 <= j < name_seq(v@).len() && name_seq(v@)[j] == name@;
            assert(v@[j]@ == name@);
        }
    }
    None
}

/// Adds `name` unless it is there; the names stay a set.
pub fn insert_name(v: &mut Vec<String>, name: String)
    ensures
        forall|x: Seq<char>| name_seq(final(v)@).contains(x) <==> (name_seq(old(v)@).contains(x) || x == name@),
        name_seq(old(v)@).no_duplicates() ==> name_seq(final(v)@).no_duplicates(),
{
    match find_name(v, name.as_str()) {
        Some(i) => {
            assert(name_seq(v@)[i as int] == name@);
        },
        None => {
            let ghost before = name_seq(v@);
            let ghost n = name@;
            v.push(name);
            proof {
                assert(name_seq(v@) == before.push(n));
                assert forall|x: Seq<char>| name_seq(v@).contains(x) <==> (before.contains(x) || x == n) by {
                    if before.contains(x) {
                        let j = choose|j: int| 0 <= j < before.len() && before[j] == x;
                        assert(name_seq(v@)[j] == x);
                    }
                    if x == n {
                        assert(name_seq(v@)[before.len() as int] == x);
                    }
                    if name_seq(v@).contains(x) {
                        let j = choose|j: int| 0 <= j < name_seq(v@).len() && name_seq(v@)[j] == x;
                        if j < before.len() {
                            assert(before[j] == x);
                        }
                    }
                }
            }
        },
    }
}

/// Removes `name` if it is there; with no duplicates it is then gone.
pub fn remove_name(v: &mut Vec<String>, name: &str)
    requires
        name_seq(old(v)@).no_duplicates(),
    ensures
        name_seq(final(v)@).no_duplicates(),
        forall|x: Seq<char>| name_seq(final(v)@).contains(x) <==> (name_seq(old(v)@).contains(x) && x != name@),
{
    match find_name(v, name) {
        Some(i) => {
            let ghost before = name_seq(v@);
            v.remove(i);
            proof {
                assert(name_seq(v@) == before.remove(i as int));
                assert forall|x: Seq<char>| name_seq(v@).contains(x) <==> (before.contains(x) && x != name@) by {
                    if name_seq(v@).contains(x) {
                        let j = choose|j: int| 0 <= j < name_seq(v@).len() && name_seq(v@)[j] == x;
                        let j2 = if j < i { j } else { j + 1 };
                        assert(before[j2] == x);
                        assert(before[i as int] == name@);
                        assert(j2 != i);
                    }
                    if before.contains(x) && x != name@ {
                        let j = choose|j: int| 0 <= j < before.len() && before[j] == x;
                        assert(j != i);
                        if j < i {
                            assert(name_seq(v@)[j] == x);
                        } else {
                            assert(name_seq(v@)[j - 1] == x);
                        }
                    }
                }
                assert(name_seq(v@).no_duplicates()) by {
                    assert forall|a: int, b: int| 0 <= a < name_seq(v@).len() && 0 <= b < name_seq(v@).len() && a != b
                        implies name_seq(v@)[a] != name_seq(v@)[b] by {
                        let a2 = if a < i { a } else { a + 1 };
                        let b2 = if b < i { b } else { b + 1 };
                        assert(name_seq(v@)[a] == before[a2]);
                        assert(name_seq(v@)[b] == before[b2]);
                    }
                }
            }
        },
        None => {},
    }
}

} // verus!
