//! Namespaces: finite mappings from names to object handles, kept as a list of
//! entries in which no name occurs twice.

use vstd::prelude::*;

verus! {

/// One binding of a namespace.
#[derive(Debug)]
pub struct Entry {
    pub key: String,
    pub value: usize,
}

/// The mathematical model of a namespace: its bindings in insertion order.
pub type Bindings = Seq<(Seq<char>, usize)>;

/// The bindings that a vector of entries stands for.
pub open spec fn bindings_of(entries: Seq<Entry>) -> Bindings {
    Seq::new(entries.len(), |i: int| (entries[i].key@, entries[i].value))
}

/// `name` is bound in `s`.
pub open spec fn ns_has(s: Bindings, name: Seq<char>) -> bool {
    exists|i: int| 0 <= i < s.len() && (#[trigger] s[i]).0 == name
}

/// A position at which `name` is bound in `s`.
pub open spec fn ns_pos(s: Bindings, name: Seq<char>) -> int {
    choose|i: int| 0 <= i < s.len() && (#[trigger] s[i]).0 == name
}

/// The handle bound to `name` in `s`, if any.
pub open spec fn ns_get(s: Bindings, name: Seq<char>) -> Option<usize> {
    if ns_has(s, name) {
        Some(s[ns_pos(s, name)].1)
    } else {
        None
    }
}

/// `s` after binding `name` to `value`: an existing binding is replaced in
/// place, a new one goes to the end.
pub open spec fn ns_set(s: Bindings, name: Seq<char>, value: usize) -> Bindings {
    if ns_has(s, name) {
        s.update(ns_pos(s, name), (name, value))
    } else {
        s.push((name, value))
    }
}

/// No name is bound twice in `s`.
pub open spec fn ns_distinct(s: Bindings) -> bool {
    forall|i: int, j: int|
        0 <= i < s.len() && 0 <= j < s.len() && i != j ==> (#[trigger] s[i]).0 != (#[trigger] s[j]).0
}

/// In a namespace without repeated names, the position of a name is the one
/// place where it stands.
pub proof fn lemma_ns_pos_unique(s: Bindings, name: Seq<char>, i: int)
    requires
        ns_distinct(s),
        0 <= i < s.len(),
        s[i].0 == name,
    ensures
        ns_has(s, name),
        ns_pos(s, name) == i,
        ns_get(s, name) == Some(s[i].1),
{
}

/// Binding a name keeps names distinct; the name then resolves to the new
/// value and every other name resolves as before.
pub proof fn lemma_ns_set(s: Bindings, name: Seq<char>, value: usize)
    requires
        ns_distinct(s),
    ensures
        ns_distinct(ns_set(s, name, value)),
        ns_get(ns_set(s, name, value), name) == Some(value),
        forall|other: Seq<char>|
            other != name ==> ns_get(ns_set(s, name, value), other) == ns_get(s, other),
        ns_set(s, name, value).len() == if ns_has(s, name) {
            s.len()
        } else {
            s.len() + 1
        },
{
    let t = ns_set(s, name, value);
    let p = if ns_has(s, name) {
        ns_pos(s, name)
    } else {
        s.len() as int
    };
    assert(t[p] == (name, value));
    assert(forall|i: int| 0 <= i < t.len() && i != p ==> t[i] == s[i]);
    assert(forall|i: int| 0 <= i < s.len() && i != p ==> s[i].0 != name);
    lemma_ns_pos_unique(t, name, p);
    assert forall|other: Seq<char>| other != name implies ns_get(t, other) == ns_get(s, other) by {
        if ns_has(s, other) {
            let i = ns_pos(s, other);
            assert(t[i] == s[i]);
            lemma_ns_pos_unique(t, other, i);
        } else if ns_has(t, other) {
            let i = ns_pos(t, other);
            assert(s[i].0 == other);
        }
    }
}

/// Looks `name` up among `entries`.
pub fn entries_get(entries: &Vec<Entry>, name: &String) -> (found: Option<usize>)
    requires
        ns_distinct(bindings_of(entries@)),
    ensures
        found == ns_get(bindings_of(entries@), name@),
{
    let mut i: usize = 0;
    while i < entries.len()
        invariant
            i <= entries.len(),
            ns_distinct(bindings_of(entries@)),
            forall|j: int| 0 <= j < i ==> (#[trigger] bindings_of(entries@)[j]).0 != name@,
        decreases entries.len() - i,
    {
        if entries[i].key == *name {
            proof {
                lemma_ns_pos_unique(bindings_of(entries@), name@, i as int);
            }
            return Some(entries[i].value);
        }
        i += 1;
    }
    None
}

/// Binds `name` to `value` among `entries`.
pub fn entries_set(entries: &mut Vec<Entry>, name: String, value: usize)
    requires
        ns_distinct(bindings_of(old(entries)@)),
    ensures
        bindings_of(final(entries)@) == ns_set(bindings_of(old(entries)@), name@, value),
        ns_distinct(bindings_of(final(entries)@)),
{
    let ghost before = bindings_of(entries@);
    proof {
        lemma_ns_set(before, name@, value);
    }
    let mut i: usize = 0;
    while i < entries.len()
        invariant
            i <= entries.len(),
            entries@ == old(entries)@,
            ns_distinct(before),
            before == bindings_of(entries@),
            forall|j: int| 0 <= j < i ==> (#[trigger] before[j]).0 != name@,
        decreases entries.len() - i,
    {
        if entries[i].key == name {
            proof {
                lemma_ns_pos_unique(before, name@, i as int);
            }
            entries.set(i, Entry { key: name, value });
            assert(bindings_of(entries@) =~= ns_set(before, name@, value));
            return ;
        }
        i += 1;
    }
    entries.push(Entry { key: name, value });
    assert(bindings_of(entries@) =~= ns_set(before, name@, value));
}

} // verus!

verus! {

/// Every handle bound in `s` is below `bound`.
pub open spec fn ns_below(s: Bindings, bound: int) -> bool {
    forall|k: int| 0 <= k < s.len() ==> (#[trigger] s[k]).1 < bound
}

/// Binding a handle below `bound` keeps every bound handle below `bound`.
pub proof fn lemma_ns_set_below(s: Bindings, name: Seq<char>, value: usize, bound: int)
    requires
        ns_below(s, bound),
        value < bound,
    ensures
        ns_below(ns_set(s, name, value), bound),
{
    let t = ns_set(s, name, value);
    assert forall|k: int| 0 <= k < t.len() implies (#[trigger] t[k]).1 < bound by {
        if t[k] != (name, value) {
            assert(t[k] == s[k]);
        }
    }
}

/// A copy of `entries`.
pub fn entries_clone(entries: &Vec<Entry>) -> (copy: Vec<Entry>)
    ensures
        bindings_of(copy@) == bindings_of(entries@),
        copy@.len() == entries@.len(),
        forall|k: int| 0 <= k < copy@.len() ==> (#[trigger] copy@[k]).value == entries@[k].value,
{
    let mut copy: Vec<Entry> = Vec::new();
    let mut i: usize = 0;
    while i < entries.len()
        invariant
            i <= entries.len(),
            copy@.len() == i,
            forall|k: int| 0 <= k < i ==> (#[trigger] copy@[k]).key@ == entries@[k].key@ && copy@[k].value == entries@[k].value,
        decreases entries.len() - i,
    {
        copy.push(Entry { key: entries[i].key.clone(), value: entries[i].value });
        i += 1;
    }
    assert(bindings_of(copy@) =~= bindings_of(entries@));
    copy
}

} // verus!
