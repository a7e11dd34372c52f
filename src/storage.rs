//! Document storage: the write that saving a buffer issues, and a flat
//! key-value store of documents keyed by their path.

use vstd::prelude::*;

verus! {

/// A document store as a map from key to content.
pub type Docs = Map<Seq<char>, Seq<char>>;

/// One mutating operation on a document store.
#[derive(Debug, PartialEq)]
pub enum StoreOp {
    Put { key: String, value: String },
    Delete { key: String },
}

/// What a store operation does, in mathematical terms.
pub ghost enum StoreOpM {
    Put(Seq<char>, Seq<char>),
    Delete(Seq<char>),
}

impl View for StoreOp {
    type V = StoreOpM;

    open spec fn view(&self) -> StoreOpM {
        match self {
            StoreOp::Put { key, value } => StoreOpM::Put(key@, value@),
            StoreOp::Delete { key } => StoreOpM::Delete(key@),
        }
    }
}

/// Saving a buffer writes it under its key; saving an empty buffer deletes
/// the key instead.
pub open spec fn save_op_of(key: Seq<char>, content: Seq<char>) -> StoreOpM {
    if content.len() == 0 {
        StoreOpM::Delete(key)
    } else {
        StoreOpM::Put(key, content)
    }
}

/// A store after an operation.
pub open spec fn applied(m: Docs, op: StoreOpM) -> Docs {
    match op {
        StoreOpM::Put(k, v) => m.insert(k, v),
        StoreOpM::Delete(k) => m.remove(k),
    }
}

/// The content a key loads: its value, or the empty text where it has none.
pub open spec fn loaded(m: Docs, key: Seq<char>) -> Seq<char> {
    if m.contains_key(key) {
        m[key]
    } else {
        Seq::empty()
    }
}

/// The operation that saves `content` under `key`.
pub fn save_op(key: &str, content: &str) -> (r: StoreOp)
    ensures
        r@ == save_op_of(key@, content@),
{
    if content.is_empty() {
        StoreOp::Delete { key: key.to_owned() }
    } else {
        StoreOp::Put { key: key.to_owned(), value: content.to_owned() }
    }
}

/// Storing a text then loading its key gives the text back, byte for byte,
/// whatever the store held; storing the empty text is deleting the key.
pub proof fn lemma_round_trip(m: Docs, key: Seq<char>, content: Seq<char>)
    ensures
        loaded(applied(m, save_op_of(key, content)), key) == content,
        content.len() == 0 ==> applied(m, save_op_of(key, content)) == m.remove(key),
{
    if content.len() == 0 {
        assert(!m.remove(key).contains_key(key));
        assert(loaded(m.remove(key), key) =~= content);
    }
}

/// A key that was never stored loads as the empty text.
pub proof fn lemma_missing_is_empty(m: Docs, key: Seq<char>)
    requires
        !m.contains_key(key),
    ensures
        loaded(m, key) == Seq::<char>::empty(),
{
}

/// The map that a list of entries with distinct keys stands for.
pub open spec fn entries_map(s: Seq<(String, String)>) -> Docs
    decreases s.len(),
{
    if s.len() == 0 {
        Map::empty()
    } else {
        entries_map(s.drop_last()).insert(s.last().0@, s.last().1@)
    }
}

/// No two entries share a key.
pub open spec fn keys_distinct(s: Seq<(String, String)>) -> bool {
    forall|i: int, j: int| 0 <= i < j < s.len() ==> s[i].0@ != s[j].0@
}

proof fn lemma_absent(s: Seq<(String, String)>, k: Seq<char>)
    requires
        forall|i: int| 0 <= i < s.len() ==> s[i].0@ != k,
    ensures
        !entries_map(s).contains_key(k),
    decreases s.len(),
{
    if s.len() > 0 {
        lemma_absent(s.drop_last(), k);
    }
}

proof fn lemma_lookup(s: Seq<(String, String)>, i: int)
    requires
        keys_distinct(s),
        0 <= i < s.len(),
    ensures
        entries_map(s).contains_key(s[i].0@),
        entries_map(s)[s[i].0@] == s[i].1@,
    decreases s.len(),
{
    if i < s.len() - 1 {
        lemma_lookup(s.drop_last(), i);
    }
}

proof fn lemma_remove(s: Seq<(String, String)>, i: int)
    requires
        keys_distinct(s),
        0 <= i < s.len(),
    ensures
        entries_map(s.remove(i)) == entries_map(s).remove(s[i].0@),
        keys_distinct(s.remove(i)),
    decreases s.len(),
{
    let k = s[i].0@;
    if i == s.len() - 1 {
        assert(s.remove(i) =~= s.drop_last());
        lemma_absent(s.drop_last(), k);
        assert(entries_map(s.drop_last()).remove(k) =~= entries_map(s.drop_last()));
        assert(entries_map(s).remove(k) =~= entries_map(s.drop_last()).remove(k));
    } else {
        lemma_remove(s.drop_last(), i);
        assert(s.remove(i).drop_last() =~= s.drop_last().remove(i));
        assert(s.remove(i).last() == s.last());
        assert(entries_map(s.remove(i)) =~= entries_map(s).remove(k));
    }
}

/// A synchronous in-memory document store with one value per key.
pub struct FlatStore {
    entries: Vec<(String, String)>,
}

impl View for FlatStore {
    type V = Docs;

    closed spec fn view(&self) -> Docs {
        entries_map(self.entries@)
    }
}

impl FlatStore {
    /// The store's internal invariant: one entry per key.
    pub closed spec fn wf(&self) -> bool {
        keys_distinct(self.entries@)
    }

    /// An empty store.
    pub fn new() -> (r: FlatStore)
        ensures
            r.wf(),
            r@ == Docs::empty(),
    {
        FlatStore { entries: Vec::new() }
    }

    fn find(&self, key: &str) -> (r: Option<usize>)
        requires
            self.wf(),
        ensures
            match r {
                Some(i) => i < self.entries@.len() && self.entries@[i as int].0@ == key@,
                None => !self@.contains_key(key@),
            },
    {
        let wanted = key.to_owned();
        let mut i: usize = 0;
        while i < self.entries.len()
            invariant
                0 <= i <= self.entries@.len(),
                wanted@ == key@,
                forall|j: int| 0 <= j < i ==> self.entries@[j].0@ != key@,
            decreases self.entries@.len() - i,
        {
            if self.entries[i].0 == wanted {
                return Some(i);
            }
            i = i + 1;
        }
        proof {
            lemma_absent(self.entries@, key@);
        }
        None
    }

    /// The value stored under `key`, if any.
    pub fn get(&self, key: &str) -> (r: Option<String>)
        requires
            self.wf(),
        ensures
            match r {
                Some(v) => self@.contains_key(key@) && self@[key@] == v@,
                None => !self@.contains_key(key@),
            },
    {
        match self.find(key) {
            Some(i) => {
                proof {
                    lemma_lookup(self.entries@, i as int);
                }
                Some(self.entries[i].1.clone())
            },
            None => None,
        }
    }

    /// Removes `key` and its value, if present.
    pub fn delete(&mut self, key: &str)
        requires
            old(self).wf(),
        ensures
            final(self).wf(),
            final(self)@ == old(self)@.remove(key@),
    {
        match self.find(key) {
            Some(i) => {
                proof {
                    lemma_remove(self.entries@, i as int);
                }
                self.entries.remove(i);
            },
            None => {
                proof {
                    assert(self@.remove(key@) =~= self@);
                }
            },
        }
    }

    /// Stores `value` under `key`, replacing what was there.
    pub fn put(&mut self, key: String, value: String)
        requires
            old(self).wf(),
        ensures
            final(self).wf(),
            final(self)@ == old(self)@.insert(key@, value@),
    {
        self.delete(key.as_str());
        let ghost before = self.entries@;
        proof {
            assert forall|j: int| 0 <= j < before.len() implies before[j].0@ != key@ by {
                if before[j].0@ == key@ {
                    lemma_lookup(before, j);
                }
            }
        }
        self.entries.push((key, value));
        proof {
            assert(self.entries@.drop_last() =~= before);
            assert(self@ =~= old(self)@.remove(key@).insert(key@, value@));
            assert(old(self)@.remove(key@).insert(key@, value@) =~= old(self)@.insert(key@, value@));
        }
    }

    /// Carries out one store operation.
    pub fn apply(&mut self, op: StoreOp)
        requires
            old(self).wf(),
        ensures
            final(self).wf(),
            final(self)@ == applied(old(self)@, op@),
    {
        match op {
            StoreOp::Put { key, value } => self.put(key, value),
            StoreOp::Delete { key } => self.delete(key.as_str()),
        }
    }

    /// Saves a buffer under `key`: an empty buffer deletes the key.
    pub fn save(&mut self, key: &str, content: &str)
        requires
            old(self).wf(),
        ensures
            final(self).wf(),
            final(self)@ == applied(old(self)@, save_op_of(key@, content@)),
    {
        let op = save_op(key, content);
        self.apply(op);
    }

    /// Loads the content under `key`; a missing key loads as empty.
    pub fn load(&self, key: &str) -> (r: String)
        requires
            self.wf(),
        ensures
            r@ == loaded(self@, key@),
    {
        match self.get(key) {
            Some(v) => v,
            None => String::new(),
        }
    }
}

} // verus!
