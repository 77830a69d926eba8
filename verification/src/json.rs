//! JSON request bodies as plain values: a value type for the shapes the
//! commands send, and an object that behaves as a map from keys to values.

use vstd::prelude::*;
use crate::text::{str_eq, views};

verus! {

/// A JSON value as the commands send it.
pub enum JsonValue {
    /// A JSON string.
    Str(String),
    /// `true` or `false`.
    Bool(bool),
    /// A non-negative integer.
    UInt(u64),
    /// Text that is already JSON (a number literal, or a document the user supplied),
    /// inserted as it stands.
    Raw(String),
    /// An array of strings.
    StrList(Vec<String>),
}

/// The mathematical content of a [`JsonValue`].
pub enum JsonData {
    Str(Seq<char>),
    Bool(bool),
    UInt(u64),
    Raw(Seq<char>),
    StrList(Seq<Seq<char>>),
}

impl View for JsonValue {
    type V = JsonData;

    open spec fn view(&self) -> JsonData {
        match self {
            JsonValue::Str(s) => JsonData::Str(s@),
            JsonValue::Bool(b) => JsonData::Bool(*b),
            JsonValue::UInt(n) => JsonData::UInt(*n),
            JsonValue::Raw(s) => JsonData::Raw(s@),
            JsonValue::StrList(v) => JsonData::StrList(views(v@)),
        }
    }
}

impl JsonValue {
    /// A copy of the value.
    pub fn duplicate(&self) -> (r: JsonValue)
        ensures
            r@ == self@,
    {
        match self {
            JsonValue::Str(s) => JsonValue::Str(s.clone()),
            JsonValue::Bool(b) => JsonValue::Bool(*b),
            JsonValue::UInt(n) => JsonValue::UInt(*n),
            JsonValue::Raw(s) => JsonValue::Raw(s.clone()),
            JsonValue::StrList(v) => JsonValue::StrList(clone_strings(v)),
        }
    }
}

/// A copy of a vector of strings.
pub fn clone_strings(v: &Vec<String>) -> (r: Vec<String>)
    ensures
        views(r@) == views(v@),
        r@.len() == v@.len(),
{
    let mut r: Vec<String> = Vec::new();
    let mut i: usize = 0;
    while i < v.len()
        invariant
            i <= v@.len(),
            r@.len() == i,
            forall|j: int| 0 <= j < i ==> r@[j]@ == v@[j]@,
        decreases v@.len() - i,
    {
        r.push(v[i].clone());
        i = i + 1;
    }
    assert(views(r@) =~= views(v@));
    r
}

/// The map that a list of entries describes; a later entry for a key wins.
pub open spec fn entries_map(s: Seq<(String, JsonValue)>) -> Map<Seq<char>, JsonData>
    decreases s.len(),
{
    if s.len() == 0 {
        Map::empty()
    } else {
        entries_map(s.drop_last()).insert(s.last().0@, s.last().1@)
    }
}

/// No two entries share a key.
pub open spec fn distinct_keys(s: Seq<(String, JsonValue)>) -> bool {
    forall|i: int, j: int| 0 <= i < j < s.len() ==> s[i].0@ != s[j].0@
}

/// The map of distinct entries has exactly their keys, each with its value.
pub proof fn lemma_entries_map_content(s: Seq<(String, JsonValue)>)
    requires
        distinct_keys(s),
    ensures
        forall|k: Seq<char>| #[trigger] entries_map(s).dom().contains(k) <==> exists|j: int| 0 <= j < s.len() && s[j].0@ == k,
        forall|j: int| 0 <= j < s.len() ==> #[trigger] entries_map(s)[s[j].0@] == s[j].1@,
    decreases s.len(),
{
    if s.len() > 0 {
        let d = s.drop_last();
        assert(distinct_keys(d)) by {
            assert forall|i: int, j: int| 0 <= i < j < d.len() implies d[i].0@ != d[j].0@ by {
                assert(d[i] == s[i] && d[j] == s[j]);
            }
        }
        lemma_entries_map_content(d);
        assert forall|k: Seq<char>| #[trigger] entries_map(s).dom().contains(k) implies exists|j: int| 0 <= j < s.len() && s[j].0@ == k by {
            if k != s.last().0@ {
                assert(entries_map(d).dom().contains(k));
                let j = choose|j: int| 0 <= j < d.len() && d[j].0@ == k;
                assert(s[j] == d[j]);
            } else {
                assert(s[s.len() - 1].0@ == k);
            }
        }
        assert forall|k: Seq<char>| (exists|j: int| 0 <= j < s.len() && s[j].0@ == k) implies #[trigger] entries_map(s).dom().contains(k) by {
            let j = choose|j: int| 0 <= j < s.len() && s[j].0@ == k;
            if j < s.len() - 1 {
                assert(d[j] == s[j]);
                assert(entries_map(d).dom().contains(d[j].0@));
            }
        }
        assert forall|j: int| 0 <= j < s.len() implies #[trigger] entries_map(s)[s[j].0@] == s[j].1@ by {
            if j < s.len() - 1 {
                assert(d[j] == s[j]);
                assert(s[j].0@ != s[s.len() - 1].0@);
                assert(entries_map(d)[d[j].0@] == d[j].1@);
            }
        }
    }
}

/// Replacing the value of an existing key updates the map at that key only.
proof fn lemma_entries_map_update(s: Seq<(String, JsonValue)>, i: int, k: String, v: JsonValue)
    requires
        distinct_keys(s),
        0 <= i < s.len(),
        s[i].0@ == k@,
    ensures
        entries_map(s.update(i, (k, v))) == entries_map(s).insert(k@, v@),
    decreases s.len(),
{
    let u = s.update(i, (k, v));
    if i == s.len() - 1 {
        assert(u.drop_last() =~= s.drop_last());
        assert(entries_map(u) =~= entries_map(s).insert(k@, v@));
    } else {
        let d = s.drop_last();
        assert(distinct_keys(d)) by {
            assert forall|a: int, b: int| 0 <= a < b < d.len() implies d[a].0@ != d[b].0@ by {
                assert(d[a] == s[a] && d[b] == s[b]);
            }
        }
        assert(u.drop_last() =~= d.update(i, (k, v)));
        lemma_entries_map_update(d, i, k, v);
        assert(s[i].0@ != s.last().0@);
        assert(entries_map(u) =~= entries_map(s).insert(k@, v@));
    }
}

/// A JSON object: each key at most once, a later insert of a key replacing its value.
pub struct JsonObject {
    entries: Vec<(String, JsonValue)>,
}

impl View for JsonObject {
    type V = Map<Seq<char>, JsonData>;

    closed spec fn view(&self) -> Map<Seq<char>, JsonData> {
        entries_map(self.entries@)
    }
}

impl JsonObject {
    #[verifier::type_invariant]
    closed spec fn wf(self) -> bool {
        distinct_keys(self.entries@)
    }

    /// An empty object.
    pub fn new() -> (o: JsonObject)
        ensures
            o@ == Map::<Seq<char>, JsonData>::empty(),
    {
        JsonObject { entries: Vec::new() }
    }

    /// Sets `key` to `value`, replacing any earlier value of `key`.
    pub fn insert(&mut self, key: String, value: JsonValue)
        ensures
            final(self)@ == old(self)@.insert(key@, value@),
    {
        proof {
            use_type_invariant(&*self);
        }
        let mut entries: Vec<(String, JsonValue)> = Vec::new();
        std::mem::swap(&mut entries, &mut self.entries);
        let ghost s = entries@;
        let mut i: usize = 0;
        while i < entries.len()
            invariant
                entries@ == s,
                s == old(self).entries@,
                distinct_keys(s),
                i <= s.len(),
                forall|j: int| 0 <= j < i ==> s[j].0@ != key@,
            decreases s.len() - i,
        {
            if entries[i].0 == key {
                proof {
                    assert(s[i as int].0@ == key@);
                    lemma_entries_map_update(s, i as int, key, value);
                }
                let ghost pair = (key, value);
                entries.set(i, (key, value));
                proof {
                    assert(entries@ == s.update(i as int, pair));
                    assert(s == old(self).entries@);
                    assert(entries_map(entries@) == entries_map(s).insert(key@, value@));
                    assert(distinct_keys(entries@)) by {
                        assert forall|a: int, b: int| 0 <= a < b < entries@.len() implies entries@[a].0@ != entries@[b].0@ by {
                            if a == i {
                                assert(s[b].0@ != s[a].0@);
                            } else if b == i {
                                assert(s[a].0@ != s[b].0@);
                            }
                        }
                    }
                }
                self.entries = entries;
                return;
            }
            i = i + 1;
        }
        entries.push((key, value));
        proof {
            assert(entries@.drop_last() =~= s);
        }
        self.entries = entries;
    }

    /// The value stored under `key`, if any.
    pub fn get(&self, key: &str) -> (r: Option<&JsonValue>)
        ensures
            match r {
                Some(v) => self@.contains_key(key@) && self@[key@] == v@,
                None => !self@.contains_key(key@),
            },
    {
        proof {
            use_type_invariant(self);
            lemma_entries_map_content(self.entries@);
        }
        let mut i: usize = 0;
        while i < self.entries.len()
            invariant
                i <= self.entries@.len(),
                distinct_keys(self.entries@),
                forall|j: int| 0 <= j < i ==> self.entries@[j].0@ != key@,
            decreases self.entries@.len() - i,
        {
            if str_eq(self.entries[i].0.as_str(), key) {
                proof {
                    let e = self.entries@;
                    lemma_entries_map_content(e);
                    assert(entries_map(e)[e[i as int].0@] == e[i as int].1@);
                    assert(entries_map(e).dom().contains(e[i as int].0@));
                }
                return Some(&self.entries[i].1);
            }
            i = i + 1;
        }
        None
    }

    /// Number of keys.
    pub fn len(&self) -> (n: usize)
        ensures
            n == self@.dom().len(),
    {
        proof {
            use_type_invariant(self);
            lemma_entries_map_len(self.entries@);
        }
        self.entries.len()
    }

    /// The key and value at position `i` of the object's entries, for callers that
    /// walk the object; positions `0..len()` visit each key once.
    pub fn entry(&self, i: usize) -> (r: (&String, &JsonValue))
        requires
            i < self@.dom().len(),
        ensures
            self@.contains_key(r.0@),
            self@[r.0@] == r.1@,
    {
        proof {
            use_type_invariant(self);
            lemma_entries_map_len(self.entries@);
            lemma_entries_map_content(self.entries@);
        }
        (&self.entries[i].0, &self.entries[i].1)
    }
}

/// The map of distinct entries has one key per entry.
proof fn lemma_entries_map_len(s: Seq<(String, JsonValue)>)
    requires
        distinct_keys(s),
    ensures
        entries_map(s).dom().len() == s.len(),
        entries_map(s).dom().finite(),
    decreases s.len(),
{
    if s.len() > 0 {
        let d = s.drop_last();
        assert(distinct_keys(d)) by {
            assert forall|i: int, j: int| 0 <= i < j < d.len() implies d[i].0@ != d[j].0@ by {
                assert(d[i] == s[i] && d[j] == s[j]);
            }
        }
        lemma_entries_map_len(d);
        lemma_entries_map_content(d);
        assert(!entries_map(d).dom().contains(s.last().0@)) by {
            if entries_map(d).dom().contains(s.last().0@) {
                let j = choose|j: int| 0 <= j < d.len() && d[j].0@ == s.last().0@;
                assert(s[j] == d[j]);
            }
        }
    }
}

/// Read after write: a key just set reads back the value it was set to, and every
/// other key keeps its value.
pub proof fn law_insert_then_read(o: Map<Seq<char>, JsonData>, k: Seq<char>, v: JsonData, other: Seq<char>)
    requires
        other != k,
    ensures
        o.insert(k, v).contains_key(k),
        o.insert(k, v)[k] == v,
        o.insert(k, v).contains_key(other) == o.contains_key(other),
        o.contains_key(other) ==> o.insert(k, v)[other] == o[other],
{
}


/// What `serde_json::from_str::<serde_json::Value>` makes of `text`: success, or
/// failure with the error's message. A function of the text alone.
pub uninterp spec fn json_parse_outcome(text: Seq<char>) -> Result<(), Seq<char>>;

/// Checks that `text` is a JSON document, with `serde_json::from_str`.
/// Claimed: the outcome is `json_parse_outcome(text)`; which texts succeed, and the
/// error messages, are serde_json's and are not stated here.
#[verifier::external_body]
pub(crate) fn check_json_text(text: &str) -> (r: Result<(), String>)
    ensures
        match r {
            Ok(()) => json_parse_outcome(text@) is Ok,
            Err(e) => json_parse_outcome(text@) == Err::<(), Seq<char>>(e@),
        },
{
    match serde_json::from_str::<serde_json::Value>(text) {
        Ok(_) => Ok(()),
        Err(e) => Err(e.to_string()),
    }
}

} // verus!
