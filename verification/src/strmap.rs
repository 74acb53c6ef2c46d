//! A map keyed by strings, kept as a list of (key, value) entries.
use vstd::prelude::*;

verus! {

/// The map a list of entries denotes: later entries win over earlier ones.
pub open spec fn entries_map<V>(e: Seq<(String, V)>) -> Map<Seq<char>, V>
    decreases e.len(),
{
    if e.len() == 0 {
        Map::empty()
    } else {
        entries_map(e.drop_last()).insert(e.last().0@, e.last().1)
    }
}

/// A string-keyed map.
#[derive(Debug)]
pub struct StrMap<V> {
    entries: Vec<(String, V)>,
}

proof fn lemma_absent<V>(e: Seq<(String, V)>, k: Seq<char>)
    requires
        forall|j: int| 0 <= j < e.len() ==> (#[trigger] e[j]).0@ != k,
    ensures
        !entries_map(e).contains_key(k),
    decreases e.len(),
{
    if e.len() > 0 {
        lemma_absent(e.drop_last(), k);
    }
}

proof fn lemma_suffix_free<V>(e: Seq<(String, V)>, i: int, k: Seq<char>)
    requires
        0 <= i <= e.len(),
        forall|j: int| i <= j < e.len() ==> (#[trigger] e[j]).0@ != k,
    ensures
        entries_map(e).contains_key(k) == entries_map(e.take(i)).contains_key(k),
        entries_map(e).contains_key(k) ==> entries_map(e)[k] == entries_map(e.take(i))[k],
    decreases e.len() - i,
{
    if i == e.len() {
        assert(e.take(i) =~= e);
    } else {
        let d = e.drop_last();
        assert(d.take(i) =~= e.take(i));
        lemma_suffix_free(d, i, k);
    }
}

proof fn lemma_remove_entry<V>(e: Seq<(String, V)>, j: int, k: Seq<char>)
    requires
        0 <= j < e.len(),
        e[j].0@ == k,
    ensures
        entries_map(e.remove(j)).remove(k) == entries_map(e).remove(k),
    decreases e.len(),
{
    let d = e.drop_last();
    if j == e.len() - 1 {
        assert(e.remove(j) =~= d);
        assert(entries_map(e).remove(k) =~= entries_map(d).remove(k));
    } else {
        let r = e.remove(j);
        assert(r.drop_last() =~= d.remove(j));
        assert(r.last() == e.last());
        lemma_remove_entry(d, j, k);
        let l = e.last();
        if l.0@ == k {
            assert(entries_map(r).remove(k) =~= entries_map(d.remove(j)).remove(k));
            assert(entries_map(e).remove(k) =~= entries_map(d).remove(k));
        } else {
            assert(entries_map(r).remove(k) =~= entries_map(d.remove(j)).remove(k).insert(
                l.0@,
                l.1,
            ));
            assert(entries_map(e).remove(k) =~= entries_map(d).remove(k).insert(l.0@, l.1));
        }
    }
}

impl<V> View for StrMap<V> {
    type V = Map<Seq<char>, V>;

    closed spec fn view(&self) -> Map<Seq<char>, V> {
        entries_map(self.entries@)
    }
}

impl<V> StrMap<V> {
    /// The entries, in the order they are kept.
    pub closed spec fn entry_seq(&self) -> Seq<(String, V)> {
        self.entries@
    }

    pub fn new() -> (r: StrMap<V>)
        ensures
            r@ == Map::<Seq<char>, V>::empty(),
    {
        StrMap { entries: Vec::new() }
    }

    /// The map that a list of entries denotes.
    pub fn from_entries(entries: Vec<(String, V)>) -> (r: StrMap<V>)
        ensures
            r@ == entries_map(entries@),
            r.entry_seq() == entries@,
    {
        StrMap { entries }
    }

    /// The entries, in the order they are kept.
    pub fn entries(&self) -> (r: &Vec<(String, V)>)
        ensures
            r@ == self.entry_seq(),
    {
        &self.entries
    }

    fn position(&self, k: &String) -> (r: Option<usize>)
        ensures
            r matches Some(i) ==> i < self.entries@.len() && self.entries@[i as int].0@ == k@,
            r is None ==> forall|j: int|
                0 <= j < self.entries@.len() ==> (#[trigger] self.entries@[j]).0@ != k@,
    {
        let mut i: usize = 0;
        while i < self.entries.len()
            invariant
                i <= self.entries@.len(),
                forall|j: int| 0 <= j < i ==> (#[trigger] self.entries@[j]).0@ != k@,
            decreases self.entries@.len() - i,
        {
            if self.entries[i].0 == *k {
                return Some(i);
            }
            i = i + 1;
        }
        None
    }

    /// The value stored under `k`, if any.
    pub fn get(&self, k: &String) -> (r: Option<&V>)
        ensures
            r is Some == self@.contains_key(k@),
            r matches Some(v) ==> *v == self@[k@],
    {
        let ghost e = self.entries@;
        let mut i: usize = self.entries.len();
        while i > 0
            invariant
                i <= e.len(),
                e == self.entries@,
                forall|j: int| i <= j < e.len() ==> (#[trigger] e[j]).0@ != k@,
            decreases i,
        {
            if self.entries[i - 1].0 == *k {
                proof {
                    lemma_suffix_free(e, i as int, k@);
                    assert(e.take(i as int).drop_last() =~= e.take(i - 1));
                }
                return Some(&self.entries[i - 1].1);
            }
            i = i - 1;
        }
        proof {
            lemma_suffix_free(e, 0, k@);
            assert(e.take(0) =~= Seq::<(String, V)>::empty());
        }
        None
    }

    /// Whether `k` has a value.
    pub fn contains_key(&self, k: &String) -> (r: bool)
        ensures
            r == self@.contains_key(k@),
    {
        self.get(k).is_some()
    }

    /// Removes the value stored under `k`.
    pub fn remove(&mut self, k: &String)
        ensures
            final(self)@ == old(self)@.remove(k@),
    {
        let ghost orig = self@;
        loop
            invariant
                orig == old(self)@,
                entries_map(self.entries@).remove(k@) == orig.remove(k@),
            decreases self.entries@.len(),
        {
            match self.position(k) {
                Some(i) => {
                    proof {
                        lemma_remove_entry(self.entries@, i as int, k@);
                    }
                    self.entries.remove(i);
                },
                None => {
                    proof {
                        lemma_absent(self.entries@, k@);
                        assert(entries_map(self.entries@) =~= entries_map(self.entries@).remove(
                            k@,
                        ));
                        assert(self@ == orig.remove(k@));
                    }
                    return ;
                },
            }
        }
    }

    /// Removes the value stored under `k` and hands it back.
    pub fn take(&mut self, k: &String) -> (r: Option<V>)
        ensures
            r is Some == old(self)@.contains_key(k@),
            r matches Some(v) ==> v == old(self)@[k@],
            final(self)@ == old(self)@.remove(k@),
    {
        let ghost e = self.entries@;
        let mut i: usize = self.entries.len();
        while i > 0
            invariant
                i <= e.len(),
                e == self.entries@,
                e == old(self).entries@,
                forall|j: int| i <= j < e.len() ==> (#[trigger] e[j]).0@ != k@,
            decreases i,
        {
            if self.entries[i - 1].0 == *k {
                proof {
                    lemma_suffix_free(e, i as int, k@);
                    assert(e.take(i as int).drop_last() =~= e.take(i - 1));
                    lemma_remove_entry(e, i - 1, k@);
                    assert(entries_map(e.take(i as int)) == entries_map(e.take(i - 1)).insert(
                        e[i - 1].0@,
                        e[i - 1].1,
                    ));
                    assert(entries_map(e).contains_key(k@));
                    assert(entries_map(e)[k@] == e[i - 1].1);
                }
                let (_key, v) = self.entries.remove(i - 1);
                self.remove(k);
                return Some(v);
            }
            i = i - 1;
        }
        proof {
            lemma_suffix_free(e, 0, k@);
            assert(e.take(0) =~= Seq::<(String, V)>::empty());
            assert(self@ =~= self@.remove(k@));
        }
        None
    }

    /// Stores `v` under `k`, replacing any earlier value.
    pub fn insert(&mut self, k: String, v: V)
        ensures
            final(self)@ == old(self)@.insert(k@, v),
    {
        self.remove(&k);
        let ghost before = self.entries@;
        self.entries.push((k, v));
        proof {
            assert(self.entries@.drop_last() =~= before);
            assert(final(self)@ =~= old(self)@.insert(k@, v));
        }
    }
}

} // verus!
