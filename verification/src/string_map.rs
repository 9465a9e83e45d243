//! A map keyed by strings, kept in key order.
//!
//! It stands where the compiler keeps its named collections (contracts by
//! path, functions by label, method identifiers by signature): each key
//! occurs once, and the entries are visited in ascending key order.

use vstd::prelude::*;

use crate::text::chars_of;

verus! {

broadcast use vstd::std_specs::vec::group_vec_axioms;

/// The order of strings by their characters: Unicode scalar value order,
/// which is the order in which Rust compares `String`s.
pub open spec fn lex_lt(a: Seq<char>, b: Seq<char>) -> bool
    decreases a.len(),
{
    if a.len() == 0 {
        b.len() > 0
    } else if b.len() == 0 {
        false
    } else if a[0] != b[0] {
        a[0] < b[0]
    } else {
        lex_lt(a.drop_first(), b.drop_first())
    }
}

/// No string precedes itself.
pub proof fn lemma_lex_irreflexive(a: Seq<char>)
    ensures
        !lex_lt(a, a),
    decreases a.len(),
{
    if a.len() > 0 {
        lemma_lex_irreflexive(a.drop_first());
    }
}

/// The order of strings is transitive.
pub proof fn lemma_lex_transitive(a: Seq<char>, b: Seq<char>, c: Seq<char>)
    requires
        lex_lt(a, b),
        lex_lt(b, c),
    ensures
        lex_lt(a, c),
    decreases a.len(),
{
    if a.len() > 0 && b.len() > 0 && c.len() > 0 {
        if a[0] == b[0] && b[0] == c[0] {
            lemma_lex_transitive(a.drop_first(), b.drop_first(), c.drop_first());
        }
    }
}

/// Two different strings are ordered one way or the other.
pub proof fn lemma_lex_total(a: Seq<char>, b: Seq<char>)
    requires
        a != b,
    ensures
        lex_lt(a, b) || lex_lt(b, a),
    decreases a.len(),
{
    if a.len() > 0 && b.len() > 0 && a[0] == b[0] {
        if a.drop_first() == b.drop_first() {
            assert(a =~= seq![a[0]] + a.drop_first());
            assert(b =~= seq![b[0]] + b.drop_first());
            assert(false);
        } else {
            lemma_lex_total(a.drop_first(), b.drop_first());
        }
    } else if a.len() == 0 && b.len() == 0 {
        assert(a =~= b);
    }
}

/// No string both precedes and follows another.
pub proof fn lemma_lex_asymmetric(a: Seq<char>, b: Seq<char>)
    requires
        lex_lt(a, b),
    ensures
        !lex_lt(b, a),
{
    if lex_lt(b, a) {
        lemma_lex_transitive(a, b, a);
        lemma_lex_irreflexive(a);
    }
}

/// How two strings compare.
#[derive(Debug, Clone, Copy, PartialEq, Eq, Structural)]
pub enum KeyOrder {
    /// The first string precedes the second.
    Before,
    /// The strings are equal.
    Same,
    /// The first string follows the second.
    After,
}

/// Comparing strings from a common prefix on is comparing their rests.
proof fn lemma_lex_skip(a: Seq<char>, b: Seq<char>, i: int)
    requires
        0 <= i <= a.len(),
        i <= b.len(),
        a.subrange(0, i) == b.subrange(0, i),
    ensures
        lex_lt(a, b) == lex_lt(a.subrange(i, a.len() as int), b.subrange(i, b.len() as int)),
    decreases i,
{
    if i > 0 {
        assert(a[0] == a.subrange(0, i)[0]);
        assert(b[0] == b.subrange(0, i)[0]);
        assert(lex_lt(a, b) == lex_lt(a.drop_first(), b.drop_first()));
        assert(a.drop_first().subrange(0, i - 1) =~= a.subrange(0, i).drop_first());
        assert(b.drop_first().subrange(0, i - 1) =~= b.subrange(0, i).drop_first());
        lemma_lex_skip(a.drop_first(), b.drop_first(), i - 1);
        assert(a.drop_first().subrange(i - 1, a.len() - 1) =~= a.subrange(i, a.len() as int));
        assert(b.drop_first().subrange(i - 1, b.len() - 1) =~= b.subrange(i, b.len() as int));
    } else {
        assert(a.subrange(0, a.len() as int) =~= a);
        assert(b.subrange(0, b.len() as int) =~= b);
    }
}

/// Compares two strings by their characters.
pub fn compare_keys(a: &[char], b: &[char]) -> (r: KeyOrder)
    ensures
        r == KeyOrder::Before <==> lex_lt(a@, b@),
        r == KeyOrder::Same <==> a@ == b@,
        r == KeyOrder::After <==> lex_lt(b@, a@),
{
    let mut i: usize = 0;
    while i < a.len() && i < b.len() && a[i] == b[i]
        invariant
            i <= a.len(),
            i <= b.len(),
            a@.subrange(0, i as int) == b@.subrange(0, i as int),
        decreases a.len() - i,
    {
        proof {
            assert(a@.subrange(0, i + 1) =~= a@.subrange(0, i as int).push(a@[i as int]));
            assert(b@.subrange(0, i + 1) =~= b@.subrange(0, i as int).push(b@[i as int]));
        }
        i = i + 1;
    }
    proof {
        lemma_lex_skip(a@, b@, i as int);
        lemma_lex_skip(b@, a@, i as int);
    }
    if i == a.len() && i == b.len() {
        proof {
            assert(a@ =~= a@.subrange(0, i as int));
            assert(b@ =~= b@.subrange(0, i as int));
            lemma_lex_irreflexive(a@);
        }
        KeyOrder::Same
    } else if i == a.len() {
        proof {
            if a@ == b@ {
                assert(false);
            }
        }
        KeyOrder::Before
    } else if i == b.len() {
        proof {
            if a@ == b@ {
                assert(false);
            }
        }
        KeyOrder::After
    } else {
        let x: char = a[i];
        let y: char = b[i];
        proof {
            let ra = a@.subrange(i as int, a.len() as int);
            let rb = b@.subrange(i as int, b.len() as int);
            assert(ra[0] == a@[i as int]);
            assert(rb[0] == b@[i as int]);
            assert(x != y);
            if a@ == b@ {
                assert(a@[i as int] == b@[i as int]);
            }
        }
        if x < y {
            KeyOrder::Before
        } else {
            KeyOrder::After
        }
    }
}

/// Whether the keys of a sequence of entries strictly increase.
pub open spec fn keys_increase<V>(entries: Seq<(String, V)>) -> bool {
    forall|i: int, j: int|
        0 <= i < j < entries.len() ==> lex_lt(#[trigger] entries[i].0@, #[trigger] entries[j].0@)
}

/// Whether a key occurs in a sequence of entries.
pub open spec fn has_key<V>(entries: Seq<(String, V)>, key: Seq<char>) -> bool {
    exists|j: int| 0 <= j < entries.len() && #[trigger] entries[j].0@ == key
}

/// A position at which a key occurs in a sequence of entries.
pub open spec fn key_index<V>(entries: Seq<(String, V)>, key: Seq<char>) -> int {
    choose|j: int| 0 <= j < entries.len() && #[trigger] entries[j].0@ == key
}

/// The map that a sequence of entries with distinct keys denotes.
pub open spec fn entries_map<V>(entries: Seq<(String, V)>) -> Map<Seq<char>, V> {
    Map::new(
        |key: Seq<char>| has_key(entries, key),
        |key: Seq<char>| entries[key_index(entries, key)].1,
    )
}

/// In a sequence with increasing keys, each entry is what the map holds for its key.
pub proof fn lemma_entries_map<V>(entries: Seq<(String, V)>)
    requires
        keys_increase(entries),
    ensures
        forall|j: int|
            0 <= j < entries.len() ==> #[trigger] entries_map(entries).contains_key(entries[j].0@)
                && entries_map(entries)[entries[j].0@] == entries[j].1,
        forall|key: Seq<char>|
            entries_map(entries).contains_key(key) <==> has_key(entries, key),
{
    assert forall|j: int| 0 <= j < entries.len() implies #[trigger] entries_map(entries).contains_key(
        entries[j].0@,
    ) && entries_map(entries)[entries[j].0@] == entries[j].1 by {
        let key = entries[j].0@;
        assert(has_key(entries, key));
        let c = key_index(entries, key);
        if c < j {
            assert(lex_lt(entries[c].0@, entries[j].0@));
            lemma_lex_irreflexive(key);
        } else if j < c {
            assert(lex_lt(entries[j].0@, entries[c].0@));
            lemma_lex_irreflexive(key);
        }
        assert(entries_map(entries)[key] == entries[c].1);
    }
}

/// A map keyed by strings whose entries are kept in ascending key order.
#[derive(Debug)]
pub struct StringMap<V> {
    entries: Vec<(String, V)>,
}

impl<V> StringMap<V> {
    /// The entries, in ascending key order.
    pub closed spec fn contents(&self) -> Seq<(String, V)> {
        self.entries@
    }

    /// The map that the entries denote.
    pub open spec fn map(&self) -> Map<Seq<char>, V> {
        entries_map(self.contents())
    }

    #[verifier::type_invariant]
    spec fn keys_in_order(&self) -> bool {
        keys_increase(self.entries@)
    }

    /// An empty map.
    pub fn new() -> (r: Self)
        ensures
            r.contents() == Seq::<(String, V)>::empty(),
            r.map() == Map::<Seq<char>, V>::empty(),
    {
        let r = StringMap { entries: Vec::new() };
        assert(r.map() =~= Map::<Seq<char>, V>::empty());
        r
    }

    /// The number of entries.
    pub fn len(&self) -> (r: usize)
        ensures
            r == self.contents().len(),
    {
        self.entries.len()
    }

    /// The entries, in ascending key order.
    pub fn entries(&self) -> (r: &Vec<(String, V)>)
        ensures
            r@ == self.contents(),
            keys_increase(r@),
    {
        proof {
            use_type_invariant(self);
        }
        &self.entries
    }

    /// The entries, in ascending key order, taking the map apart.
    pub fn into_entries(self) -> (r: Vec<(String, V)>)
        ensures
            r@ == self.contents(),
            keys_increase(r@),
    {
        proof {
            use_type_invariant(&self);
        }
        self.entries
    }

    /// The position at which `key` is or would be, and whether it is there.
    fn position(&self, key: &[char]) -> (r: (usize, bool))
        ensures
            r.0 <= self.contents().len(),
            forall|j: int| 0 <= j < r.0 ==> lex_lt(#[trigger] self.contents()[j].0@, key@),
            r.1 ==> r.0 < self.contents().len() && self.contents()[r.0 as int].0@ == key@,
            !r.1 ==> r.0 < self.contents().len() ==> lex_lt(key@, self.contents()[r.0 as int].0@),
    {
        let mut i: usize = 0;
        while i < self.entries.len()
            invariant
                i <= self.entries.len(),
                forall|j: int| 0 <= j < i ==> lex_lt(#[trigger] self.entries@[j].0@, key@),
            decreases self.entries.len() - i,
        {
            let current = chars_of(self.entries[i].0.as_str());
            match compare_keys(current.as_slice(), key) {
                KeyOrder::Before => {},
                KeyOrder::Same => {
                    return (i, true);
                },
                KeyOrder::After => {
                    return (i, false);
                },
            }
            i = i + 1;
        }
        (i, false)
    }

    /// The value held for `key`, if any.
    pub fn get(&self, key: &[char]) -> (r: Option<&V>)
        ensures
            match r {
                Some(v) => self.map().contains_key(key@) && self.map()[key@] == *v,
                None => !self.map().contains_key(key@),
            },
    {
        proof {
            use_type_invariant(self);
            lemma_entries_map(self.entries@);
        }
        let (i, found) = self.position(key);
        if found {
            Some(&self.entries[i].1)
        } else {
            proof {
                if has_key(self.entries@, key@) {
                    let j = choose|j: int| 0 <= j < self.entries@.len() && #[trigger] self.entries@[j].0@ == key@;
                    if j < i {
                        lemma_lex_irreflexive(key@);
                    } else if i < j {
                        lemma_lex_transitive(key@, self.entries@[i as int].0@, key@);
                        lemma_lex_irreflexive(key@);
                    } else {
                        lemma_lex_irreflexive(key@);
                    }
                }
            }
            None
        }
    }

    /// Sets the value for `key`, replacing the value held for it, if any.
    pub fn insert(&mut self, key: String, value: V)
        ensures
            final(self).map() == old(self).map().insert(key@, value),
    {
        proof {
            use_type_invariant(&*self);
            lemma_entries_map(self.entries@);
        }
        let chars = chars_of(key.as_str());
        let (i, found) = self.position(chars.as_slice());
        let ghost before = self.entries@;
        let ghost entry = (key, value);
        let mut entries: Vec<(String, V)> = Vec::new();
        std::mem::swap(&mut entries, &mut self.entries);
        if found {
            entries.set(i, (key, value));
            proof {
                let after = entries@;
                assert(after =~= before.update(i as int, entry));
                assert forall|a: int, b: int| 0 <= a < b < after.len() implies lex_lt(
                    #[trigger] after[a].0@,
                    #[trigger] after[b].0@,
                ) by {
                    assert(lex_lt(before[a].0@, before[b].0@));
                }
                lemma_entries_map(after);
                assert(entries_map(after) =~= entries_map(before).insert(key@, value)) by {
                    assert forall|k: Seq<char>| #[trigger] has_key(after, k) == (has_key(before, k) || k == key@) by {
                        if has_key(before, k) {
                            let j = choose|j: int| 0 <= j < before.len() && #[trigger] before[j].0@ == k;
                            assert(after[j].0@ == k);
                        }
                        if has_key(after, k) {
                            let j = choose|j: int| 0 <= j < after.len() && #[trigger] after[j].0@ == k;
                            if j != i {
                                assert(before[j].0@ == k);
                            }
                        }
                        assert(after[i as int].0@ == key@);
                    }
                    assert forall|k: Seq<char>| #[trigger] entries_map(after).contains_key(k) implies entries_map(after)[k] == entries_map(before).insert(key@, value)[k] by {
                        let j = choose|j: int| 0 <= j < after.len() && #[trigger] after[j].0@ == k;
                        assert(entries_map(after).contains_key(after[j].0@));
                        if j != i {
                            assert(before[j].0@ == k);
                            assert(entries_map(before).contains_key(before[j].0@));
                            assert(k != key@) by {
                                if j < i {
                                    assert(lex_lt(after[j].0@, after[i as int].0@));
                                } else {
                                    assert(lex_lt(after[i as int].0@, after[j].0@));
                                }
                                lemma_lex_irreflexive(k);
                            }
                        }
                    }
                }
            }
        } else {
            entries.insert(i, (key, value));
            proof {
                let after = entries@;
                assert(after =~= before.insert(i as int, entry));
                assert forall|a: int, b: int| 0 <= a < b < after.len() implies lex_lt(
                    #[trigger] after[a].0@,
                    #[trigger] after[b].0@,
                ) by {
                    if b < i {
                        assert(lex_lt(before[a].0@, before[b].0@));
                    } else if b == i {
                        assert(lex_lt(before[a].0@, key@));
                    } else if a < i {
                        assert(lex_lt(before[a].0@, key@));
                        assert(lex_lt(key@, before[i as int].0@));
                        if b - 1 > i {
                            assert(lex_lt(before[i as int].0@, before[b - 1].0@));
                            lemma_lex_transitive(key@, before[i as int].0@, before[b - 1].0@);
                        }
                        lemma_lex_transitive(before[a].0@, key@, before[b - 1].0@);
                    } else if a == i {
                        assert(lex_lt(key@, before[i as int].0@));
                        if b - 1 > i {
                            assert(lex_lt(before[i as int].0@, before[b - 1].0@));
                            lemma_lex_transitive(key@, before[i as int].0@, before[b - 1].0@);
                        }
                    } else {
                        assert(lex_lt(before[a - 1].0@, before[b - 1].0@));
                    }
                }
                lemma_entries_map(after);
                assert(!has_key(before, key@)) by {
                    if has_key(before, key@) {
                        let j = choose|j: int| 0 <= j < before.len() && #[trigger] before[j].0@ == key@;
                        if j < i {
                            lemma_lex_irreflexive(key@);
                        } else {
                            if j > i {
                                assert(lex_lt(before[i as int].0@, before[j].0@));
                                lemma_lex_transitive(key@, before[i as int].0@, key@);
                            }
                            lemma_lex_irreflexive(key@);
                        }
                    }
                }
                assert(entries_map(after) =~= entries_map(before).insert(key@, value)) by {
                    assert forall|k: Seq<char>| #[trigger] has_key(after, k) == (has_key(before, k) || k == key@) by {
                        if has_key(before, k) {
                            let j = choose|j: int| 0 <= j < before.len() && #[trigger] before[j].0@ == k;
                            if j < i {
                                assert(after[j].0@ == k);
                            } else {
                                assert(after[j + 1].0@ == k);
                            }
                        }
                        if has_key(after, k) {
                            let j = choose|j: int| 0 <= j < after.len() && #[trigger] after[j].0@ == k;
                            if j < i {
                                assert(before[j].0@ == k);
                            } else if j > i {
                                assert(before[j - 1].0@ == k);
                            }
                        }
                        assert(after[i as int].0@ == key@);
                    }
                    assert forall|k: Seq<char>| #[trigger] entries_map(after).contains_key(k) implies entries_map(after)[k] == entries_map(before).insert(key@, value)[k] by {
                        let j = choose|j: int| 0 <= j < after.len() && #[trigger] after[j].0@ == k;
                        assert(entries_map(after).contains_key(after[j].0@));
                        if j < i {
                            assert(before[j].0@ == k);
                            assert(entries_map(before).contains_key(before[j].0@));
                        } else if j > i {
                            assert(before[j - 1].0@ == k);
                            assert(entries_map(before).contains_key(before[j - 1].0@));
                        }
                    }
                }
            }
        }
        self.entries = entries;
    }
    /// Takes out the value held for `key`, if any.
    pub fn remove(&mut self, key: &[char]) -> (r: Option<V>)
        ensures
            final(self).map() == old(self).map().remove(key@),
            match r {
                Some(value) => old(self).map().contains_key(key@) && old(self).map()[key@] == value,
                None => !old(self).map().contains_key(key@),
            },
    {
        proof {
            use_type_invariant(&*self);
            lemma_entries_map(self.entries@);
        }
        let (i, found) = self.position(key);
        let ghost before = self.entries@;
        if !found {
            proof {
                assert(!has_key(before, key@)) by {
                    if has_key(before, key@) {
                        let j = choose|j: int| 0 <= j < before.len() && #[trigger] before[j].0@ == key@;
                        if j < i {
                            lemma_lex_irreflexive(key@);
                        } else {
                            if j > i {
                                assert(lex_lt(before[i as int].0@, before[j].0@));
                                lemma_lex_transitive(key@, before[i as int].0@, key@);
                            }
                            lemma_lex_irreflexive(key@);
                        }
                    }
                }
                assert(entries_map(before).remove(key@) =~= entries_map(before));
            }
            return None;
        }
        let mut entries: Vec<(String, V)> = Vec::new();
        std::mem::swap(&mut entries, &mut self.entries);
        let removed = entries.remove(i);
        proof {
            let after = entries@;
            assert(after =~= before.remove(i as int));
            assert(entries_map(before).contains_key(before[i as int].0@));
            assert forall|a: int, b: int| 0 <= a < b < after.len() implies lex_lt(
                #[trigger] after[a].0@,
                #[trigger] after[b].0@,
            ) by {
                if b < i {
                    assert(lex_lt(before[a].0@, before[b].0@));
                } else if a < i {
                    assert(lex_lt(before[a].0@, before[b + 1].0@));
                } else {
                    assert(lex_lt(before[a + 1].0@, before[b + 1].0@));
                }
            }
            lemma_entries_map(after);
            assert(entries_map(after) =~= entries_map(before).remove(key@)) by {
                assert forall|k: Seq<char>| #[trigger] has_key(after, k) == (has_key(before, k) && k != key@) by {
                    if has_key(before, k) && k != key@ {
                        let j = choose|j: int| 0 <= j < before.len() && #[trigger] before[j].0@ == k;
                        if j < i {
                            assert(after[j].0@ == k);
                        } else {
                            assert(j != i);
                            assert(after[j - 1].0@ == k);
                        }
                    }
                    if has_key(after, k) {
                        let j = choose|j: int| 0 <= j < after.len() && #[trigger] after[j].0@ == k;
                        if j < i {
                            assert(before[j].0@ == k);
                            assert(lex_lt(before[j].0@, before[i as int].0@));
                            lemma_lex_irreflexive(k);
                        } else {
                            assert(before[j + 1].0@ == k);
                            assert(lex_lt(before[i as int].0@, before[j + 1].0@));
                            lemma_lex_irreflexive(k);
                        }
                    }
                }
                assert forall|k: Seq<char>| #[trigger] entries_map(after).contains_key(k) implies entries_map(after)[k] == entries_map(before).remove(key@)[k] by {
                    let j = choose|j: int| 0 <= j < after.len() && #[trigger] after[j].0@ == k;
                    assert(entries_map(after).contains_key(after[j].0@));
                    if j < i {
                        assert(before[j].0@ == k);
                        assert(entries_map(before).contains_key(before[j].0@));
                    } else {
                        assert(before[j + 1].0@ == k);
                        assert(entries_map(before).contains_key(before[j + 1].0@));
                    }
                }
            }
        }
        self.entries = entries;
        Some(removed.1)
    }

    /// Sets every entry of `other`, replacing the values held for its keys.
    pub fn extend(&mut self, other: StringMap<V>)
        ensures
            final(self).map() == old(self).map().union_prefer_right(other.map()),
    {
        let ghost all = other.contents();
        let mut rest = other.into_entries();
        let ghost total = rest.len();
        proof {
            lemma_tail_map(all, total as int);
            assert(self.map().union_prefer_right(entries_map(all.subrange(total as int, total as int)))
                =~= self.map());
        }
        while rest.len() > 0
            invariant
                keys_increase(all),
                total == all.len(),
                rest.len() <= total,
                rest@ == all.subrange(0, rest.len() as int),
                self.map() == old(self).map().union_prefer_right(
                    entries_map(all.subrange(rest.len() as int, total as int)),
                ),
            decreases rest.len(),
        {
            let n = rest.len();
            let entry = rest.pop().unwrap();
            proof {
                assert(entry == all[n - 1]);
                lemma_tail_map(all, n - 1);
                lemma_tail_map(all, n as int);
            }
            let (key, value) = entry;
            self.insert(key, value);
            proof {
                let tail = entries_map(all.subrange(n as int, total as int));
                assert(!tail.contains_key(key@)) by {
                    if tail.contains_key(key@) {
                        let j = choose|j: int| n <= j < total && #[trigger] all[j].0@ == key@;
                        assert(lex_lt(all[n - 1].0@, all[j].0@));
                        lemma_lex_irreflexive(key@);
                    }
                }
                assert(self.map() =~= old(self).map().union_prefer_right(
                    entries_map(all.subrange(n - 1, total as int)),
                ));
                assert(rest@ =~= all.subrange(0, rest.len() as int));
            }
        }
        proof {
            assert(all.subrange(0, total as int) =~= all);
        }
    }
}

/// The map of a suffix of entries with increasing keys: the map of the
/// shorter suffix with the first entry added.
proof fn lemma_tail_map<V>(all: Seq<(String, V)>, i: int)
    requires
        keys_increase(all),
        0 <= i <= all.len(),
    ensures
        forall|key: Seq<char>|
            #[trigger] entries_map(all.subrange(i, all.len() as int)).contains_key(key) <==> exists|j: int|
                i <= j < all.len() && #[trigger] all[j].0@ == key,
        i < all.len() ==> entries_map(all.subrange(i, all.len() as int)) == entries_map(
            all.subrange(i + 1, all.len() as int),
        ).insert(all[i].0@, all[i].1),
{
    let s = all.subrange(i, all.len() as int);
    assert(keys_increase(s)) by {
        assert forall|a: int, b: int| 0 <= a < b < s.len() implies lex_lt(#[trigger] s[a].0@, #[trigger] s[b].0@) by {
            assert(s[a] == all[i + a]);
            assert(s[b] == all[i + b]);
        }
    }
    lemma_entries_map(s);
    assert forall|key: Seq<char>| #[trigger] entries_map(s).contains_key(key) <==> exists|j: int|
        i <= j < all.len() && #[trigger] all[j].0@ == key by {
        if entries_map(s).contains_key(key) {
            let c = choose|c: int| 0 <= c < s.len() && #[trigger] s[c].0@ == key;
            assert(all[i + c].0@ == key);
        }
        if exists|j: int| i <= j < all.len() && #[trigger] all[j].0@ == key {
            let j = choose|j: int| i <= j < all.len() && #[trigger] all[j].0@ == key;
            assert(s[j - i].0@ == key);
        }
    }
    if i < all.len() {
        let t = all.subrange(i + 1, all.len() as int);
        assert(keys_increase(t)) by {
            assert forall|a: int, b: int| 0 <= a < b < t.len() implies lex_lt(#[trigger] t[a].0@, #[trigger] t[b].0@) by {
                assert(t[a] == all[i + 1 + a]);
                assert(t[b] == all[i + 1 + b]);
            }
        }
        lemma_entries_map(t);
        assert forall|key: Seq<char>| #[trigger] entries_map(t).contains_key(key) <==> exists|j: int|
            i + 1 <= j < all.len() && #[trigger] all[j].0@ == key by {
            if entries_map(t).contains_key(key) {
                let c = choose|c: int| 0 <= c < t.len() && #[trigger] t[c].0@ == key;
                assert(all[i + 1 + c].0@ == key);
            }
            if exists|j: int| i + 1 <= j < all.len() && #[trigger] all[j].0@ == key {
                let j = choose|j: int| i + 1 <= j < all.len() && #[trigger] all[j].0@ == key;
                assert(t[j - i - 1].0@ == key);
            }
        }
        assert(entries_map(s) =~= entries_map(t).insert(all[i].0@, all[i].1)) by {
            assert(s[0] == all[i]);
            assert(entries_map(s).contains_key(s[0].0@));
            assert forall|key: Seq<char>| #[trigger] entries_map(s).contains_key(key) implies entries_map(s)[key]
                == entries_map(t).insert(all[i].0@, all[i].1)[key] by {
                let c = choose|c: int| 0 <= c < s.len() && #[trigger] s[c].0@ == key;
                assert(entries_map(s).contains_key(s[c].0@));
                if c > 0 {
                    assert(t[c - 1] == s[c]);
                    assert(entries_map(t).contains_key(t[c - 1].0@));
                    assert(key != all[i].0@) by {
                        assert(lex_lt(s[0].0@, s[c].0@));
                        lemma_lex_irreflexive(key);
                    }
                }
            }
        }
    }
}

} // verus!
