//! The session store: finished recordings, by session identifier, waiting
//! to be transcribed.

use vstd::prelude::*;
use vstd::string::*;

verus! {

/// Processed audio by session identifier. `S` is the sample type; the
/// store never looks inside a sample.
pub struct SessionStore<S> {
    entries: Vec<(String, Vec<S>)>,
}

/// Whether some entry is filed under `key`.
spec fn holds<S>(entries: Seq<(String, Vec<S>)>, key: Seq<char>) -> bool {
    exists|i: int| 0 <= i < entries.len() && #[trigger] entries[i].0@ == key
}

/// The place of an entry filed under `key`.
spec fn place_of<S>(entries: Seq<(String, Vec<S>)>, key: Seq<char>) -> int {
    choose|i: int| 0 <= i < entries.len() && #[trigger] entries[i].0@ == key
}

/// No identifier is filed twice.
spec fn distinct_keys<S>(entries: Seq<(String, Vec<S>)>) -> bool {
    forall|i: int, j: int|
        0 <= i < entries.len() && 0 <= j < entries.len() && #[trigger] entries[i].0@
            == #[trigger] entries[j].0@ ==> i == j
}

/// The mapping that a list of entries with distinct keys stands for.
spec fn mapping<S>(entries: Seq<(String, Vec<S>)>) -> Map<Seq<char>, Seq<S>> {
    Map::new(|key: Seq<char>| holds(entries, key), |key: Seq<char>| entries[place_of(entries, key)].1@)
}

impl<S> View for SessionStore<S> {
    type V = Map<Seq<char>, Seq<S>>;

    closed spec fn view(&self) -> Map<Seq<char>, Seq<S>> {
        mapping(self.entries@)
    }
}

impl<S> SessionStore<S> {
    /// The store's invariant: no identifier is filed twice.
    pub closed spec fn wf(&self) -> bool {
        distinct_keys(self.entries@)
    }

    /// An empty store.
    pub fn new() -> (store: Self)
        ensures
            store.wf(),
            store@ == Map::<Seq<char>, Seq<S>>::empty(),
    {
        let store = SessionStore { entries: Vec::new() };
        assert(store@ =~= Map::<Seq<char>, Seq<S>>::empty());
        store
    }

    /// The number of sessions held.
    pub fn len(&self) -> (n: usize)
        requires
            self.wf(),
        ensures
            n == self@.len(),
            self@.dom().finite(),
    {
        proof {
            lemma_mapping_len(self.entries@);
        }
        self.entries.len()
    }

    fn find(&self, session_id: &str) -> (found: Option<usize>)
        ensures
            match found {
                Some(i) => i < self.entries.len() && self.entries[i as int].0@ == session_id@,
                None => !holds(self.entries@, session_id@),
            },
    {
        let key = String::from_str(session_id);
        let mut i: usize = 0;
        while i < self.entries.len()
            invariant
                i <= self.entries.len(),
                key@ == session_id@,
                forall|j: int| 0 <= j < i ==> #[trigger] self.entries[j].0@ != session_id@,
            decreases self.entries.len() - i,
        {
            if self.entries[i].0 == key {
                return Some(i);
            }
            i += 1;
        }
        None
    }

    /// Whether a session is filed under `session_id`.
    pub fn contains(&self, session_id: &str) -> (present: bool)
        requires
            self.wf(),
        ensures
            present == self@.contains_key(session_id@),
    {
        self.find(session_id).is_some()
    }

    /// The audio filed under `session_id`, which stays in the store.
    pub fn get(&self, session_id: &str) -> (audio: Option<&Vec<S>>)
        requires
            self.wf(),
        ensures
            match audio {
                Some(samples) => self@.contains_key(session_id@) && samples@ == self@[session_id@],
                None => !self@.contains_key(session_id@),
            },
    {
        match self.find(session_id) {
            Some(i) => {
                proof {
                    lemma_place(self.entries@, i as int);
                }
                Some(&self.entries[i].1)
            },
            None => None,
        }
    }

    /// Files `samples` under `session_id`, in place of what was filed there
    /// before, if anything.
    pub fn insert(&mut self, session_id: String, samples: Vec<S>)
        requires
            old(self).wf(),
        ensures
            final(self).wf(),
            final(self)@ == old(self)@.insert(session_id@, samples@),
    {
        let ghost before = self.entries@;
        match self.find(session_id.as_str()) {
            Some(i) => {
                self.entries.set(i, (session_id, samples));
                proof {
                    lemma_mapping_update(before, i as int, (session_id, samples));
                }
            },
            None => {
                self.entries.push((session_id, samples));
                proof {
                    lemma_mapping_push(before, (session_id, samples));
                }
            },
        }
    }

    /// Takes the audio filed under `session_id` out of the store.
    pub fn take(&mut self, session_id: &str) -> (audio: Option<Vec<S>>)
        requires
            old(self).wf(),
        ensures
            final(self).wf(),
            match audio {
                Some(samples) => old(self)@.contains_key(session_id@) && samples@ == old(
                    self,
                )@[session_id@],
                None => !old(self)@.contains_key(session_id@),
            },
            final(self)@ == old(self)@.remove(session_id@),
    {
        let ghost before = self.entries@;
        match self.find(session_id) {
            Some(i) => {
                let entry = self.entries.remove(i);
                proof {
                    lemma_place(before, i as int);
                    lemma_mapping_remove(before, i as int);
                }
                Some(entry.1)
            },
            None => {
                assert(self@ =~= old(self)@.remove(session_id@));
                None
            },
        }
    }
}

proof fn lemma_place<S>(entries: Seq<(String, Vec<S>)>, i: int)
    requires
        distinct_keys(entries),
        0 <= i < entries.len(),
    ensures
        holds(entries, entries[i].0@),
        place_of(entries, entries[i].0@) == i,
        mapping(entries).contains_key(entries[i].0@),
        mapping(entries)[entries[i].0@] == entries[i].1@,
{
}

proof fn lemma_mapping_push<S>(entries: Seq<(String, Vec<S>)>, entry: (String, Vec<S>))
    requires
        distinct_keys(entries),
        !holds(entries, entry.0@),
    ensures
        distinct_keys(entries.push(entry)),
        mapping(entries.push(entry)) == mapping(entries).insert(entry.0@, entry.1@),
{
    let after = entries.push(entry);
    assert(distinct_keys(after)) by {
        assert forall|i: int, j: int|
            0 <= i < after.len() && 0 <= j < after.len() && #[trigger] after[i].0@
                == #[trigger] after[j].0@ implies i == j by {
            if i < entries.len() && j < entries.len() {
                assert(entries[i].0@ == entries[j].0@);
            } else if i < entries.len() {
                assert(entries[i].0@ == entry.0@);
            } else if j < entries.len() {
                assert(entries[j].0@ == entry.0@);
            }
        }
    }
    assert forall|key: Seq<char>| holds(after, key) <==> (key == entry.0@ || holds(entries, key)) by {
        if holds(after, key) {
            let i = place_of(after, key);
            if i < entries.len() {
                assert(entries[i].0@ == key);
            }
        }
        if holds(entries, key) {
            let i = place_of(entries, key);
            assert(after[i].0@ == key);
        }
        if key == entry.0@ {
            assert(after[entries.len() as int].0@ == key);
        }
    }
    assert forall|key: Seq<char>| holds(after, key) implies mapping(after)[key] == mapping(
        entries,
    ).insert(entry.0@, entry.1@)[key] by {
        let i = place_of(after, key);
        if key != entry.0@ {
            let j = place_of(entries, key);
            assert(after[j].0@ == key);
            assert(i == j);
        } else {
            assert(after[entries.len() as int].0@ == key);
        }
    }
    assert(mapping(after) =~= mapping(entries).insert(entry.0@, entry.1@));
}

proof fn lemma_mapping_update<S>(entries: Seq<(String, Vec<S>)>, at: int, entry: (String, Vec<S>))
    requires
        distinct_keys(entries),
        0 <= at < entries.len(),
        entries[at].0@ == entry.0@,
    ensures
        distinct_keys(entries.update(at, entry)),
        mapping(entries.update(at, entry)) == mapping(entries).insert(entry.0@, entry.1@),
{
    let after = entries.update(at, entry);
    assert forall|i: int| 0 <= i < entries.len() implies #[trigger] after[i].0@
        == entries[i].0@ by {}
    assert(distinct_keys(after)) by {
        assert forall|i: int, j: int|
            0 <= i < after.len() && 0 <= j < after.len() && #[trigger] after[i].0@
                == #[trigger] after[j].0@ implies i == j by {
            assert(entries[i].0@ == entries[j].0@);
        }
    }
    assert forall|key: Seq<char>| holds(after, key) <==> (key == entry.0@ || holds(entries, key)) by {
        if holds(after, key) {
            let i = place_of(after, key);
            assert(entries[i].0@ == key);
        }
        if holds(entries, key) {
            let i = place_of(entries, key);
            assert(after[i].0@ == key);
        }
        if key == entry.0@ {
            assert(after[at].0@ == key);
            assert(entries[at].0@ == key);
        }
    }
    assert forall|key: Seq<char>| holds(after, key) implies mapping(after)[key] == mapping(
        entries,
    ).insert(entry.0@, entry.1@)[key] by {
        let i = place_of(after, key);
        if key != entry.0@ {
            let j = place_of(entries, key);
            assert(after[j].0@ == key);
            assert(i == j);
        } else {
            assert(after[at].0@ == key);
            assert(i == at);
        }
    }
    assert(mapping(after) =~= mapping(entries).insert(entry.0@, entry.1@));
}

proof fn lemma_mapping_remove<S>(entries: Seq<(String, Vec<S>)>, at: int)
    requires
        distinct_keys(entries),
        0 <= at < entries.len(),
    ensures
        distinct_keys(entries.remove(at)),
        mapping(entries.remove(at)) == mapping(entries).remove(entries[at].0@),
{
    let after = entries.remove(at);
    let gone = entries[at].0@;
    assert forall|i: int| 0 <= i < after.len() implies #[trigger] after[i] == entries[if i < at {
        i
    } else {
        i + 1
    }] by {}
    assert(distinct_keys(after)) by {
        assert forall|i: int, j: int|
            0 <= i < after.len() && 0 <= j < after.len() && #[trigger] after[i].0@
                == #[trigger] after[j].0@ implies i == j by {
            let i2 = if i < at { i } else { i + 1 };
            let j2 = if j < at { j } else { j + 1 };
            assert(entries[i2].0@ == entries[j2].0@);
        }
    }
    assert forall|key: Seq<char>| holds(after, key) <==> (key != gone && holds(entries, key)) by {
        if holds(after, key) {
            let i = place_of(after, key);
            let i2 = if i < at { i } else { i + 1 };
            assert(entries[i2].0@ == key);
            if key == gone {
                assert(entries[at].0@ == key);
                assert(i2 == at);
            }
        }
        if key != gone && holds(entries, key) {
            let j = place_of(entries, key);
            let j2 = if j < at { j } else { j - 1 };
            assert(after[j2].0@ == key);
        }
    }
    assert forall|key: Seq<char>| holds(after, key) implies mapping(after)[key] == mapping(
        entries,
    ).remove(gone)[key] by {
        let i = place_of(after, key);
        let i2 = if i < at { i } else { i + 1 };
        let j = place_of(entries, key);
        assert(entries[i2].0@ == key);
        assert(i2 == j);
    }
    assert(mapping(after) =~= mapping(entries).remove(gone));
}

proof fn lemma_mapping_len<S>(entries: Seq<(String, Vec<S>)>)
    requires
        distinct_keys(entries),
    ensures
        mapping(entries).dom().finite(),
        mapping(entries).len() == entries.len(),
    decreases entries.len(),
{
    if entries.len() == 0 {
        assert(mapping(entries) =~= Map::<Seq<char>, Seq<S>>::empty());
    } else {
        let last = entries.len() - 1;
        let rest = entries.remove(last);
        lemma_mapping_remove(entries, last);
        lemma_mapping_len(rest);
        lemma_place(entries, last);
        let key = entries[last].0@;
        assert(mapping(entries).dom() =~= mapping(rest).dom().insert(key));
        assert(!mapping(rest).dom().contains(key));
    }
}

} // verus!
