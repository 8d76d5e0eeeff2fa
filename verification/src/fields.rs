//! Name/value lists: the fields of a stored hash and the process environment, both
//! read as "the first entry with this name".

use vstd::prelude::*;

verus! {

/// The names and values of `pairs`, as character sequences.
pub open spec fn pairs_view(pairs: Seq<(String, String)>) -> Seq<(Seq<char>, Seq<char>)> {
    pairs.map_values(|p: (String, String)| (p.0@, p.1@))
}

/// The value of the first entry of `pairs` named `key`.
pub open spec fn lookup(pairs: Seq<(Seq<char>, Seq<char>)>, key: Seq<char>) -> Option<Seq<char>>
    decreases pairs.len(),
{
    if pairs.len() == 0 {
        None
    } else if pairs[0].0 == key {
        Some(pairs[0].1)
    } else {
        lookup(pairs.drop_first(), key)
    }
}

/// The value of the first field of `fields` named `key`.
pub open spec fn field(fields: Seq<(String, String)>, key: Seq<char>) -> Option<Seq<char>> {
    lookup(pairs_view(fields), key)
}

/// The value of the first field of `fields` named `key`.
pub fn get_field(fields: &Vec<(String, String)>, key: &str) -> (r: Option<String>)
    ensures
        match r {
            Some(v) => field(fields@, key@) == Some(v@),
            None => field(fields@, key@) is None,
        },
{
    let ghost view = pairs_view(fields@);
    let mut i: usize = 0;
    assert(view.skip(0) =~= view);
    while i < fields.len()
        invariant
            view == pairs_view(fields@),
            i <= fields@.len(),
            lookup(view, key@) == lookup(view.skip(i as int), key@),
        decreases fields.len() - i,
    {
        assert(view.skip(i as int)[0] == (fields@[i as int].0@, fields@[i as int].1@));
        if crate::text::str_eq(fields[i].0.as_str(), key) {
            return Some(fields[i].1.clone());
        }
        assert(view.skip(i as int).drop_first() =~= view.skip(i + 1));
        i = i + 1;
    }
    assert(view.skip(i as int).len() == 0);
    None
}


/// The value of the entry at `i` is what `lookup` finds when no earlier entry has the
/// same name.
pub proof fn lemma_lookup_at(pairs: Seq<(Seq<char>, Seq<char>)>, key: Seq<char>, i: int)
    requires
        0 <= i < pairs.len(),
        pairs[i].0 == key,
        forall|j: int| 0 <= j < i ==> pairs[j].0 != key,
    ensures
        lookup(pairs, key) == Some(pairs[i].1),
    decreases i,
{
    if i > 0 {
        lemma_lookup_at(pairs.drop_first(), key, i - 1);
    }
}

/// `lookup` finds nothing when no entry has the name.
pub proof fn lemma_lookup_absent(pairs: Seq<(Seq<char>, Seq<char>)>, key: Seq<char>)
    requires
        forall|j: int| 0 <= j < pairs.len() ==> pairs[j].0 != key,
    ensures
        lookup(pairs, key) is None,
    decreases pairs.len(),
{
    if pairs.len() > 0 {
        lemma_lookup_absent(pairs.drop_first(), key);
    }
}

/// A name/value pair of owned strings.
pub fn pair(name: &str, value: String) -> (r: (String, String))
    ensures
        r.0@ == name@,
        r.1@ == value@,
{
    (String::from_str(name), value)
}

/// The load recorded for `id`: the first entry with that id, zero when none.
pub open spec fn load_of(loads: Seq<(String, u64)>, id: Seq<char>) -> u64
    decreases loads.len(),
{
    if loads.len() == 0 {
        0
    } else if loads[0].0@ == id {
        loads[0].1
    } else {
        load_of(loads.drop_first(), id)
    }
}

/// The load recorded for `id`, zero when none is.
pub fn load_for(loads: &Vec<(String, u64)>, id: &str) -> (r: u64)
    ensures
        r == load_of(loads@, id@),
{
    let mut i: usize = 0;
    assert(loads@.skip(0) =~= loads@);
    while i < loads.len()
        invariant
            i <= loads@.len(),
            load_of(loads@, id@) == load_of(loads@.skip(i as int), id@),
        decreases loads.len() - i,
    {
        if crate::text::str_eq(loads[i].0.as_str(), id) {
            return loads[i].1;
        }
        assert(loads@.skip(i as int).drop_first() =~= loads@.skip(i + 1));
        i = i + 1;
    }
    0
}

} // verus!
