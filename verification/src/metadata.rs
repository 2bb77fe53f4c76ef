//! Task metadata of a worker: a map from names to small JSON values.
use vstd::prelude::*;

verus! {

broadcast use vstd::string::group_string_axioms;

/// A JSON value as task metadata holds it: null, a boolean, an integer, a string, or any
/// other value (a fraction, an array, an object) as its JSON text.
#[derive(Clone, Debug)]
pub enum MetadataValue {
    Null,
    Bool(bool),
    Number(i64),
    String(String),
    Json(String),
}

impl MetadataValue {
    /// A copy of the value.
    pub fn duplicate(&self) -> (r: MetadataValue)
        ensures
            r == *self,
    {
        match self {
            MetadataValue::Null => MetadataValue::Null,
            MetadataValue::Bool(b) => MetadataValue::Bool(*b),
            MetadataValue::Number(n) => MetadataValue::Number(*n),
            MetadataValue::String(s) => MetadataValue::String(s.clone()),
            MetadataValue::Json(s) => MetadataValue::Json(s.clone()),
        }
    }

    /// The string held by a string value (`Value::as_str`).
    pub fn as_str(&self) -> (r: Option<&str>)
        ensures
            match self {
                MetadataValue::String(s) => r matches Some(t) && t@ == s@,
                _ => r is None,
            },
    {
        match self {
            MetadataValue::String(s) => Some(s.as_str()),
            _ => None,
        }
    }
}

/// The text of a value when it is a string.
pub open spec fn value_text(v: MetadataValue) -> Option<Seq<char>> {
    match v {
        MetadataValue::String(s) => Some(s@),
        _ => None,
    }
}

/// The map that a list of (name, value) pairs denotes; a later pair wins.
pub open spec fn pairs_map(s: Seq<(String, MetadataValue)>) -> Map<Seq<char>, MetadataValue>
    decreases s.len(),
{
    if s.len() == 0 {
        Map::empty()
    } else {
        pairs_map(s.drop_last()).insert(s.last().0@, s.last().1)
    }
}

/// No name occurs twice.
pub open spec fn keys_unique(s: Seq<(String, MetadataValue)>) -> bool {
    forall|i: int, j: int| 0 <= i < j < s.len() ==> s[i].0@ != s[j].0@
}

proof fn lemma_absent(s: Seq<(String, MetadataValue)>, k: Seq<char>)
    requires
        forall|i: int| 0 <= i < s.len() ==> s[i].0@ != k,
    ensures
        !pairs_map(s).contains_key(k),
    decreases s.len(),
{
    if s.len() > 0 {
        lemma_absent(s.drop_last(), k);
    }
}

proof fn lemma_lookup(s: Seq<(String, MetadataValue)>, i: int)
    requires
        keys_unique(s),
        0 <= i < s.len(),
    ensures
        pairs_map(s).contains_key(s[i].0@),
        pairs_map(s)[s[i].0@] == s[i].1,
    decreases s.len(),
{
    if i < s.len() - 1 {
        lemma_lookup(s.drop_last(), i);
    }
}

proof fn lemma_update(s: Seq<(String, MetadataValue)>, i: int, p: (String, MetadataValue))
    requires
        keys_unique(s),
        0 <= i < s.len(),
        p.0@ == s[i].0@,
    ensures
        pairs_map(s.update(i, p)) == pairs_map(s).insert(p.0@, p.1),
        keys_unique(s.update(i, p)),
    decreases s.len(),
{
    let t = s.update(i, p);
    if i == s.len() - 1 {
        assert(t.drop_last() =~= s.drop_last());
        assert(!pairs_map(s.drop_last()).contains_key(p.0@)) by {
            lemma_absent(s.drop_last(), p.0@);
        }
        assert(pairs_map(t) =~= pairs_map(s).insert(p.0@, p.1));
    } else {
        assert(t.drop_last() =~= s.drop_last().update(i, p));
        lemma_update(s.drop_last(), i, p);
        assert(pairs_map(t) =~= pairs_map(s).insert(p.0@, p.1));
    }
}

/// Task-specific metadata of a worker, kept as a list of pairs without repeated names.
#[derive(Debug)]
pub struct TaskMetadata {
    entries: Vec<(String, MetadataValue)>,
}

impl View for TaskMetadata {
    type V = Map<Seq<char>, MetadataValue>;

    closed spec fn view(&self) -> Map<Seq<char>, MetadataValue> {
        pairs_map(self.entries@)
    }
}

impl TaskMetadata {
    #[verifier::type_invariant]
    closed spec fn inv(self) -> bool {
        keys_unique(self.entries@)
    }

    /// Empty metadata.
    pub fn new() -> (m: TaskMetadata)
        ensures
            m@ == Map::<Seq<char>, MetadataValue>::empty(),
    {
        TaskMetadata { entries: Vec::new() }
    }

    /// The pairs, each name once, in the order in which names were first set.
    pub fn pairs(&self) -> (r: &Vec<(String, MetadataValue)>)
        ensures
            pairs_map(r@) == self@,
            keys_unique(r@),
    {
        proof {
            use_type_invariant(self);
        }
        &self.entries
    }

    /// Number of names that have a value.
    pub fn len(&self) -> (n: usize)
        ensures
            n == self@.dom().len(),
    {
        proof {
            use_type_invariant(self);
            lemma_pairs_len(self.entries@);
        }
        self.entries.len()
    }

    /// Whether no name has a value.
    pub fn is_empty(&self) -> (b: bool)
        ensures
            b == (self@ == Map::<Seq<char>, MetadataValue>::empty()),
    {
        proof {
            use_type_invariant(self);
            lemma_pairs_len(self.entries@);
            if self.entries@.len() > 0 {
                lemma_lookup(self.entries@, 0);
                assert(self@.contains_key(self.entries@[0].0@));
            } else {
                assert(self@ =~= Map::<Seq<char>, MetadataValue>::empty());
            }
        }
        self.entries.len() == 0
    }

    fn position(&self, key: &str) -> (r: Option<usize>)
        ensures
            match r {
                Some(i) => i < self.entries@.len() && self.entries@[i as int].0@ == key@,
                None => forall|i: int| 0 <= i < self.entries@.len() ==> self.entries@[i].0@ != key@,
            },
    {
        let mut i: usize = 0;
        while i < self.entries.len()
            invariant
                i <= self.entries@.len(),
                forall|k: int| 0 <= k < i ==> self.entries@[k].0@ != key@,
            decreases self.entries.len() - i,
        {
            if crate::text::str_eq(self.entries[i].0.as_str(), key) {
                return Some(i);
            }
            i = i + 1;
        }
        None
    }

    /// Sets the value of a name, replacing any earlier one.
    pub fn insert(&mut self, key: String, value: MetadataValue)
        ensures
            final(self)@ == old(self)@.insert(key@, value),
    {
        proof {
            use_type_invariant(&*self);
        }
        let pos = self.position(key.as_str());
        let mut entries: Vec<(String, MetadataValue)> = Vec::new();
        std::mem::swap(&mut entries, &mut self.entries);
        match pos {
            Some(i) => {
                proof {
                    lemma_update(entries@, i as int, (key, value));
                }
                entries.set(i, (key, value));
            },
            None => {
                proof {
                    lemma_absent(entries@, key@);
                    assert(entries@.push((key, value)).drop_last() =~= entries@);
                    assert forall|a: int, b: int|
                        0 <= a < b < entries@.len() + 1 implies #[trigger] entries@.push((key, value))[a].0@
                        != #[trigger] entries@.push((key, value))[b].0@ by {
                        if b < entries@.len() {
                        } else {
                        }
                    }
                }
                entries.push((key, value));
            },
        }
        self.entries = entries;
    }

    /// A copy of the value of a name.
    pub fn get(&self, key: &str) -> (r: Option<MetadataValue>)
        ensures
            match r {
                Some(v) => self@.contains_key(key@) && self@[key@] == v,
                None => !self@.contains_key(key@),
            },
    {
        proof {
            use_type_invariant(self);
        }
        match self.position(key) {
            Some(i) => {
                proof {
                    lemma_lookup(self.entries@, i as int);
                }
                Some(self.entries[i].1.duplicate())
            },
            None => {
                proof {
                    lemma_absent(self.entries@, key@);
                }
                None
            },
        }
    }

    /// The string value of a name, when it has one.
    pub fn get_str(&self, key: &str) -> (r: Option<String>)
        ensures
            match r {
                Some(s) => self@.contains_key(key@) && value_text(self@[key@]) == Some(s@),
                None => !self@.contains_key(key@) || value_text(self@[key@]) is None,
            },
    {
        match self.get(key) {
            Some(MetadataValue::String(s)) => Some(s),
            _ => None,
        }
    }

    /// A copy of the metadata.
    pub fn duplicate(&self) -> (r: TaskMetadata)
        ensures
            r@ == self@,
    {
        proof {
            use_type_invariant(self);
        }
        let mut entries: Vec<(String, MetadataValue)> = Vec::new();
        let mut i: usize = 0;
        while i < self.entries.len()
            invariant
                i <= self.entries@.len(),
                keys_unique(self.entries@),
                entries@ =~= self.entries@.take(i as int),
            decreases self.entries.len() - i,
        {
            let p = (self.entries[i].0.clone(), self.entries[i].1.duplicate());
            entries.push(p);
            proof {
                assert(self.entries@.take(i + 1) =~= self.entries@.take(i as int).push(self.entries@[i as int]));
            }
            i = i + 1;
        }
        assert(self.entries@.take(i as int) =~= self.entries@);
        TaskMetadata { entries }
    }
}

impl Clone for TaskMetadata {
    /// A copy with the same names and values.
    fn clone(&self) -> (r: Self)
        ensures
            r@ == self@,
    {
        self.duplicate()
    }
}

proof fn lemma_pairs_len(s: Seq<(String, MetadataValue)>)
    requires
        keys_unique(s),
    ensures
        pairs_map(s).dom().finite(),
        pairs_map(s).dom().len() == s.len(),
    decreases s.len(),
{
    if s.len() > 0 {
        let t = s.drop_last();
        assert(keys_unique(t));
        lemma_pairs_len(t);
        lemma_absent(t, s.last().0@);
    }
}

} // verus!
