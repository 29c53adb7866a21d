use vstd::prelude::*;
use serde_json::Value;

verus! {

/// `serde_json::Value`, a JSON value attached to a bottle as metadata,
/// carried without being looked into.
#[verifier::external_type_specification]
#[verifier::external_body]
pub struct ExJsonValue(serde_json::Value);

/// The map that a list of entries describes, a later entry for a key
/// replacing an earlier one.
pub open spec fn map_of_entries(s: Seq<(String, Value)>) -> Map<Seq<char>, Value>
    decreases s.len(),
{
    if s.len() == 0 {
        Map::empty()
    } else {
        map_of_entries(s.drop_last()).insert(s.last().0@, s.last().1)
    }
}

/// No two entries share a key.
pub open spec fn distinct_keys(s: Seq<(String, Value)>) -> bool {
    forall|i: int, j: int| 0 <= i < j < s.len() ==> s[i].0@ != s[j].0@
}

/// A key is in the map of a list exactly when some entry has it, and with
/// distinct keys the map holds that entry's value.
pub proof fn lemma_map_of_entries_lookup(s: Seq<(String, Value)>, k: Seq<char>)
    ensures
        map_of_entries(s).contains_key(k) <==> exists|i: int| 0 <= i < s.len() && s[i].0@ == k,
        distinct_keys(s) ==> forall|i: int|
            0 <= i < s.len() && s[i].0@ == k ==> map_of_entries(s)[k] == #[trigger] s[i].1,
    decreases s.len(),
{
    if s.len() > 0 {
        let p = s.drop_last();
        lemma_map_of_entries_lookup(p, k);
        if map_of_entries(s).contains_key(k) && s.last().0@ != k {
            let i = choose|i: int| 0 <= i < p.len() && p[i].0@ == k;
            assert(s[i] == p[i]);
        }
        if exists|i: int| 0 <= i < s.len() && s[i].0@ == k {
            let i = choose|i: int| 0 <= i < s.len() && s[i].0@ == k;
            if i < s.len() - 1 {
                assert(p[i] == s[i]);
            }
        }
        if distinct_keys(s) {
            assert(distinct_keys(p)) by {
                assert forall|a: int, b: int| 0 <= a < b < p.len() implies p[a].0@ != p[b].0@ by {
                    assert(p[a] == s[a] && p[b] == s[b]);
                }
            }
            assert forall|i: int| 0 <= i < s.len() && s[i].0@ == k implies map_of_entries(s)[k]
                == #[trigger] s[i].1 by {
                if i < s.len() - 1 {
                    assert(p[i] == s[i]);
                }
            }
        }
    }
}

/// Replacing the value of an entry, keeping its key, replaces that key's
/// value in the map.
proof fn lemma_map_of_entries_update(s: Seq<(String, Value)>, i: int, e: (String, Value))
    requires
        distinct_keys(s),
        0 <= i < s.len(),
        s[i].0@ == e.0@,
    ensures
        map_of_entries(s.update(i, e)) =~= map_of_entries(s).insert(e.0@, e.1),
    decreases s.len(),
{
    let t = s.update(i, e);
    if i == s.len() - 1 {
        assert(t.drop_last() =~= s.drop_last());
    } else {
        let p = s.drop_last();
        assert(t.drop_last() =~= p.update(i, e));
        assert(distinct_keys(p)) by {
            assert forall|a: int, b: int| 0 <= a < b < p.len() implies p[a].0@ != p[b].0@ by {
                assert(p[a] == s[a] && p[b] == s[b]);
            }
        }
        lemma_map_of_entries_update(p, i, e);
        assert(s[i].0@ != s.last().0@);
    }
}

/// Metadata of a bottle: string keys mapped to JSON values, kept as a list
/// of entries in which no key occurs twice.
#[derive(Debug)]
pub struct Metadata {
    entries: Vec<(String, Value)>,
}

impl View for Metadata {
    type V = Map<Seq<char>, Value>;

    closed spec fn view(&self) -> Map<Seq<char>, Value> {
        map_of_entries(self.entries@)
    }
}

impl Metadata {
    #[verifier::type_invariant]
    closed spec fn inv(self) -> bool {
        distinct_keys(self.entries@)
    }

    /// Metadata with no entry.
    pub fn new() -> (m: Metadata)
        ensures
            m@ == Map::<Seq<char>, Value>::empty(),
    {
        Metadata { entries: Vec::new() }
    }

    /// The position of the entry with this key, if any.
    fn position(&self, key: &String) -> (r: Option<usize>)
        ensures
            r matches Some(i) ==> i < self.entries@.len() && self.entries@[i as int].0@ == key@,
            r is None ==> forall|i: int|
                0 <= i < self.entries@.len() ==> self.entries@[i].0@ != key@,
    {
        let mut i: usize = 0;
        while i < self.entries.len()
            invariant
                i <= self.entries@.len(),
                forall|j: int| 0 <= j < i ==> self.entries@[j].0@ != key@,
            decreases self.entries@.len() - i,
        {
            if self.entries[i].0 == *key {
                return Some(i);
            }
            i = i + 1;
        }
        None
    }

    /// Sets the value of `key`, replacing any value it had.
    pub fn insert(&mut self, key: String, value: Value)
        ensures
            final(self)@ == old(self)@.insert(key@, value),
    {
        proof {
            use_type_invariant(&*self);
        }
        let pos = self.position(&key);
        let mut entries: Vec<(String, Value)> = Vec::new();
        std::mem::swap(&mut entries, &mut self.entries);
        let ghost s = entries@;
        match pos {
            Some(i) => {
                proof {
                    lemma_map_of_entries_update(s, i as int, (key, value));
                }
                entries.set(i, (key, value));
            },
            None => {
                entries.push((key, value));
                assert(entries@.drop_last() =~= s);
            },
        }
        self.entries = entries;
    }

    /// The value of `key`, if it has one.
    pub fn get(&self, key: &str) -> (r: Option<&Value>)
        ensures
            r matches Some(v) ==> self@.contains_key(key@) && *v == self@[key@],
            r is None ==> !self@.contains_key(key@),
    {
        proof {
            use_type_invariant(self);
            lemma_map_of_entries_lookup(self.entries@, key@);
        }
        let owned = key.to_owned();
        match self.position(&owned) {
            Some(i) => Some(&self.entries[i].1),
            None => None,
        }
    }

    /// The number of keys.
    pub fn len(&self) -> (r: usize)
        ensures
            r == self@.dom().len(),
    {
        proof {
            use_type_invariant(self);
            lemma_entries_key_count(self.entries@);
        }
        self.entries.len()
    }

    /// The entries, each key once.
    pub fn entries(&self) -> (r: &[(String, Value)])
        ensures
            map_of_entries(r@) == self@,
            distinct_keys(r@),
    {
        proof {
            use_type_invariant(self);
        }
        self.entries.as_slice()
    }
}

/// Copies a JSON value with serde_json's derived `Clone` for `Value`, which
/// copies it whole: the copy is the same value.
#[verifier::external_body]
fn clone_json_value(v: &Value) -> (r: Value)
    ensures
        r == *v,
{
    v.clone()
}

/// Whether two JSON values compare equal under serde_json's derived
/// `PartialEq` for `Value`, a comparison that depends on the two values alone.
pub uninterp spec fn json_value_eq(a: Value, b: Value) -> bool;

/// Whether two metadata maps hold the same keys, each with values that
/// compare equal as JSON values.
pub open spec fn same_json_maps(a: Map<Seq<char>, Value>, b: Map<Seq<char>, Value>) -> bool {
    &&& a.dom() == b.dom()
    &&& forall|k: Seq<char>| a.contains_key(k) ==> json_value_eq(a[k], b[k])
}

/// Compares two JSON values with serde_json's derived `PartialEq` for
/// `Value`, whose result is a function of the two values; `Value` is also
/// `Eq` (its numbers are never NaN), so a value compares equal to itself.
#[verifier::external_body]
fn json_values_equal(a: &Value, b: &Value) -> (r: bool)
    ensures
        r == json_value_eq(*a, *b),
        *a == *b ==> r,
{
    a == b
}

impl Clone for Metadata {
    /// A copy holding the same entries.
    fn clone(&self) -> (r: Metadata)
        ensures
            r@ == self@,
    {
        proof {
            use_type_invariant(self);
        }
        let mut entries: Vec<(String, Value)> = Vec::new();
        let mut i: usize = 0;
        while i < self.entries.len()
            invariant
                i <= self.entries@.len(),
                entries@ == self.entries@.take(i as int),
            decreases self.entries@.len() - i,
        {
            let key = self.entries[i].0.clone();
            let value = clone_json_value(&self.entries[i].1);
            entries.push((key, value));
            i = i + 1;
            assert(entries@ =~= self.entries@.take(i as int));
        }
        assert(self.entries@.take(self.entries@.len() as int) =~= self.entries@);
        Metadata { entries }
    }
}

impl PartialEq for Metadata {
    /// Whether the two hold the same keys, each with values that compare
    /// equal as JSON values, whatever order the keys were set in.
    fn eq(&self, other: &Metadata) -> (r: bool)
        ensures
            r == same_json_maps(self@, other@),
            self@ == other@ ==> r,
    {
        proof {
            use_type_invariant(self);
            use_type_invariant(other);
            lemma_entries_key_count(self.entries@);
            lemma_entries_key_count(other.entries@);
        }
        if self.entries.len() != other.entries.len() {
            return false;
        }
        proof {
            assert forall|j: int| 0 <= j < self.entries@.len() implies self.entries@[j].1
                == self@[#[trigger] self.entries@[j].0@] && self@.contains_key(
                self.entries@[j].0@,
            ) by {
                lemma_map_of_entries_lookup(self.entries@, self.entries@[j].0@);
            }
        }
        let mut i: usize = 0;
        while i < self.entries.len()
            invariant
                i <= self.entries@.len(),
                self.entries@.len() == other.entries@.len(),
                distinct_keys(self.entries@),
                forall|j: int|
                    0 <= j < self.entries@.len() ==> self.entries@[j].1 == self@[#[trigger] self.entries@[j].0@]
                        && self@.contains_key(self.entries@[j].0@),
                forall|j: int|
                    0 <= j < i ==> other@.contains_key(#[trigger] self.entries@[j].0@)
                        && json_value_eq(self.entries@[j].1, other@[self.entries@[j].0@]),
                self@ == other@ ==> forall|j: int| 0 <= j < self.entries@.len() ==> self.entries@[j].1
                    == other@[#[trigger] self.entries@[j].0@],
            decreases self.entries@.len() - i,
        {
            let ghost k = self.entries@[i as int].0@;
            match other.get(self.entries[i].0.as_str()) {
                Some(w) => {
                    if !json_values_equal(&self.entries[i].1, w) {
                        assert(!same_json_maps(self@, other@)) by {
                            assert(self@.contains_key(k));
                        }
                        return false;
                    }
                },
                None => {
                    assert(!same_json_maps(self@, other@)) by {
                        assert(self@.contains_key(k));
                    }
                    return false;
                },
            }
            i = i + 1;
        }
        proof {
            assert forall|k: Seq<char>| self@.contains_key(k) implies other@.contains_key(k)
                && json_value_eq(self@[k], other@[k]) by {
                lemma_map_of_entries_lookup(self.entries@, k);
                let j = choose|j: int| 0 <= j < self.entries@.len() && self.entries@[j].0@ == k;
                assert(self.entries@[j].0@ == k);
            }
            vstd::set_lib::lemma_subset_equality(self@.dom(), other@.dom());
        }
        true
    }
}

impl vstd::std_specs::cmp::PartialEqSpecImpl for Metadata {
    open spec fn obeys_eq_spec() -> bool {
        true
    }

    /// The same keys, each with values that compare equal as JSON values.
    open spec fn eq_spec(&self, other: &Metadata) -> bool {
        same_json_maps(self@, other@)
    }
}

/// With distinct keys, the map of a list has as many keys as the list has entries.
proof fn lemma_entries_key_count(s: Seq<(String, Value)>)
    requires
        distinct_keys(s),
    ensures
        map_of_entries(s).dom().finite(),
        map_of_entries(s).dom().len() == s.len(),
    decreases s.len(),
{
    if s.len() > 0 {
        let p = s.drop_last();
        assert(distinct_keys(p)) by {
            assert forall|a: int, b: int| 0 <= a < b < p.len() implies p[a].0@ != p[b].0@ by {
                assert(p[a] == s[a] && p[b] == s[b]);
            }
        }
        lemma_entries_key_count(p);
        lemma_map_of_entries_lookup(p, s.last().0@);
        if map_of_entries(p).contains_key(s.last().0@) {
            let i = choose|i: int| 0 <= i < p.len() && p[i].0@ == s.last().0@;
            assert(s[i] == p[i]);
        }
    }
}

} // verus!
