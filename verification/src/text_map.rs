//! A map from texts to values.
use crate::text::same_text;
use vstd::prelude::*;

verus! {

/// A map keyed by text. Each key occurs once.
pub struct TextMap<V> {
    entries: Vec<(String, V)>,
}

spec fn entries_map<V>(s: Seq<(String, V)>) -> Map<Seq<char>, V>
    decreases s.len(),
{
    if s.len() == 0 {
        Map::empty()
    } else {
        entries_map(s.drop_last()).insert(s.last().0@, s.last().1)
    }
}

spec fn distinct_texts<V>(s: Seq<(String, V)>) -> bool {
    forall|i: int, j: int| 0 <= i < j < s.len() ==> (#[trigger] s[i]).0@ != (#[trigger] s[j]).0@
}

proof fn lemma_entries<V>(s: Seq<(String, V)>)
    requires
        distinct_texts(s),
    ensures
        forall|i: int|
            0 <= i < s.len() ==> entries_map(s).contains_key((#[trigger] s[i]).0@)
                && entries_map(s)[s[i].0@] == s[i].1,
        forall|k: Seq<char>| #[trigger]
            entries_map(s).contains_key(k) ==> exists|i: int|
                0 <= i < s.len() && (#[trigger] s[i]).0@ == k,
    decreases s.len(),
{
    if s.len() > 0 {
        let t = s.drop_last();
        lemma_entries(t);
        assert forall|i: int| 0 <= i < s.len() implies entries_map(s).contains_key(
            (#[trigger] s[i]).0@,
        ) && entries_map(s)[s[i].0@] == s[i].1 by {
            if i < t.len() {
                assert(t[i] == s[i]);
            }
        }
        assert forall|k: Seq<char>| #[trigger] entries_map(s).contains_key(k) implies exists|i: int|
            0 <= i < s.len() && (#[trigger] s[i]).0@ == k by {
            if k == s.last().0@ {
                assert(s[s.len() - 1].0@ == k);
            } else {
                assert(entries_map(t).contains_key(k));
                let i = choose|i: int| 0 <= i < t.len() && (#[trigger] t[i]).0@ == k;
                assert(s[i] == t[i]);
            }
        }
    }
}

proof fn lemma_removed<V>(s: Seq<(String, V)>, at: int)
    requires
        distinct_texts(s),
        0 <= at < s.len(),
    ensures
        distinct_texts(s.remove(at)),
        entries_map(s.remove(at)) == entries_map(s).remove(s[at].0@),
{
    let rest = s.remove(at);
    assert forall|i: int, j: int| 0 <= i < j < rest.len() implies (#[trigger] rest[i]).0@ != (
    #[trigger] rest[j]).0@ by {
        let a = if i < at {
            i
        } else {
            i + 1
        };
        let b = if j < at {
            j
        } else {
            j + 1
        };
        assert(s[a] == rest[i] && s[b] == rest[j]);
    }
    lemma_entries(s);
    lemma_entries(rest);
    assert forall|k: Seq<char>|
        entries_map(rest).contains_key(k) <==> entries_map(s).remove(s[at].0@).contains_key(k) by {
        if entries_map(rest).contains_key(k) {
            let i = choose|i: int| 0 <= i < rest.len() && (#[trigger] rest[i]).0@ == k;
            let a = if i < at {
                i
            } else {
                i + 1
            };
            assert(s[a] == rest[i]);
        }
        if entries_map(s).contains_key(k) && k != s[at].0@ {
            let i = choose|i: int| 0 <= i < s.len() && (#[trigger] s[i]).0@ == k;
            let a = if i < at {
                i
            } else {
                i - 1
            };
            assert(s[i] == rest[a]);
        }
    }
    assert forall|k: Seq<char>| #[trigger] entries_map(rest).contains_key(k) implies entries_map(
        rest,
    )[k] == entries_map(s).remove(s[at].0@)[k] by {
        let i = choose|i: int| 0 <= i < rest.len() && (#[trigger] rest[i]).0@ == k;
        let a = if i < at {
            i
        } else {
            i + 1
        };
        assert(s[a] == rest[i]);
    }
    assert(entries_map(rest) =~= entries_map(s).remove(s[at].0@));
}

impl<V> View for TextMap<V> {
    type V = Map<Seq<char>, V>;

    closed spec fn view(&self) -> Map<Seq<char>, V> {
        entries_map(self.entries@)
    }
}

impl<V> TextMap<V> {
    #[verifier::type_invariant]
    spec fn wf(self) -> bool {
        distinct_texts(self.entries@)
    }

    /// A map without entries.
    pub fn new() -> (r: Self)
        ensures
            r@ == Map::<Seq<char>, V>::empty(),
    {
        TextMap { entries: Vec::new() }
    }

    fn find(&self, key: &str) -> (r: Option<usize>)
        ensures
            match r {
                Some(i) => i < self.entries@.len() && self.entries@[i as int].0@ == key@
                    && self@.contains_key(key@) && self@[key@] == self.entries@[i as int].1,
                None => !self@.contains_key(key@),
            },
    {
        proof {
            use_type_invariant(self);
            lemma_entries(self.entries@);
        }
        let mut i: usize = 0;
        while i < self.entries.len()
            invariant
                distinct_texts(self.entries@),
                self@ == entries_map(self.entries@),
                i <= self.entries@.len(),
                forall|k: int| 0 <= k < i ==> (#[trigger] self.entries@[k]).0@ != key@,
            decreases self.entries@.len() - i,
        {
            if same_text(self.entries[i].0.as_str(), key) {
                proof {
                    lemma_entries(self.entries@);
                    assert(self.entries@[i as int].0@ == key@);
                }
                return Some(i);
            }
            i = i + 1;
        }
        None
    }

    /// The value of a key.
    pub fn get(&self, key: &str) -> (r: Option<&V>)
        ensures
            match r {
                Some(v) => self@.contains_key(key@) && *v == self@[key@],
                None => !self@.contains_key(key@),
            },
    {
        match self.find(key) {
            Some(i) => Some(&self.entries[i].1),
            None => None,
        }
    }

    /// Takes the value of a key out of the map.
    pub fn remove(&mut self, key: &str) -> (r: Option<V>)
        ensures
            final(self)@ == old(self)@.remove(key@),
            match r {
                Some(v) => old(self)@.contains_key(key@) && v == old(self)@[key@],
                None => !old(self)@.contains_key(key@),
            },
    {
        proof {
            use_type_invariant(&*self);
        }
        match self.find(key) {
            Some(i) => {
                let mut entries: Vec<(String, V)> = Vec::new();
                std::mem::swap(&mut entries, &mut self.entries);
                proof {
                    lemma_removed(entries@, i as int);
                }
                let (_, value) = entries.remove(i);
                self.entries = entries;
                Some(value)
            },
            None => {
                assert(self@.remove(key@) =~= self@);
                None
            },
        }
    }

    /// Gives a key a value.
    pub fn insert(&mut self, key: &str, value: V)
        ensures
            final(self)@ == old(self)@.insert(key@, value),
    {
        let _ = self.remove(key);
        proof {
            use_type_invariant(&*self);
            lemma_entries(self.entries@);
        }
        let mut entries: Vec<(String, V)> = Vec::new();
        std::mem::swap(&mut entries, &mut self.entries);
        let ghost before = entries@;
        let key = key.to_owned();
        entries.push((key, value));
        proof {
            assert(entries@.drop_last() =~= before);
            assert(!entries_map(before).contains_key(key@));
            assert forall|i: int, j: int| 0 <= i < j < entries@.len() implies (
            #[trigger] entries@[i]).0@ != (#[trigger] entries@[j]).0@ by {
                assert(entries@[i] == before[i]);
                if j < before.len() {
                    assert(entries@[j] == before[j]);
                }
            }
            assert(entries_map(entries@) =~= old(self)@.insert(key@, value));
        }
        self.entries = entries;
    }
}

} // verus!
