use vstd::prelude::*;

verus! {

/// One property: a key and its value.
pub type Entry = (Seq<char>, Seq<char>);

/// The value of the first entry with key `k`, as the daemon's dictionaries
/// are searched: front to back.
pub open spec fn lookup(e: Seq<Entry>, k: Seq<char>) -> Option<Seq<char>>
    decreases e.len(),
{
    if e.len() == 0 {
        None
    } else {
        match lookup(e.drop_last(), k) {
            Some(v) => Some(v),
            None => if e.last().0 == k {
                Some(e.last().1)
            } else {
                None
            },
        }
    }
}

/// No two entries share a key.
pub open spec fn distinct_keys(e: Seq<Entry>) -> bool {
    forall|i: int, j: int| 0 <= i < j < e.len() ==> e[i].0 != e[j].0
}

/// An ordered string-to-string mapping, as objects carry it: each key at
/// most once, in the order the keys were first set.
#[derive(Debug)]
pub struct Properties {
    entries: Vec<(String, String)>,
}

impl View for Properties {
    type V = Seq<Entry>;

    closed spec fn view(&self) -> Seq<Entry> {
        self.entries@.map_values(|e: (String, String)| (e.0@, e.1@))
    }
}

pub proof fn lemma_lookup_prefix(e: Seq<Entry>, k: Seq<char>, i: int)
    requires
        0 <= i < e.len(),
        lookup(e.take(i), k) is None,
    ensures
        lookup(e.take(i + 1), k) == (if e[i].0 == k {
            Some(e[i].1)
        } else {
            None::<Seq<char>>
        }),
{
    assert(e.take(i + 1).drop_last() =~= e.take(i));
}

pub proof fn lemma_lookup_found(e: Seq<Entry>, k: Seq<char>, i: int)
    requires
        0 <= i <= e.len(),
        lookup(e.take(i), k) is Some,
    ensures
        lookup(e, k) == lookup(e.take(i), k),
    decreases e.len() - i,
{
    if i < e.len() {
        assert(e.take(i + 1).drop_last() =~= e.take(i));
        lemma_lookup_found(e, k, i + 1);
    } else {
        assert(e.take(i) =~= e);
    }
}

/// A key is missing exactly when no entry has it.
pub proof fn lemma_lookup_none(e: Seq<Entry>, k: Seq<char>)
    ensures
        lookup(e, k) is None <==> forall|i: int| 0 <= i < e.len() ==> e[i].0 != k,
    decreases e.len(),
{
    if e.len() > 0 {
        let p = e.drop_last();
        lemma_lookup_none(p, k);
        assert(forall|i: int| 0 <= i < p.len() ==> p[i] == e[i]);
    }
}

/// With distinct keys, the value of a key is that of its one entry.
pub proof fn lemma_lookup_at(e: Seq<Entry>, k: Seq<char>, i: int)
    requires
        distinct_keys(e),
        0 <= i < e.len(),
        e[i].0 == k,
    ensures
        lookup(e, k) == Some(e[i].1),
    decreases e.len(),
{
    let p = e.drop_last();
    if i == e.len() - 1 {
        lemma_lookup_none(p, k);
        assert forall|j: int| 0 <= j < p.len() implies p[j].0 != k by {
            assert(p[j] == e[j]);
        }
    } else {
        assert(distinct_keys(p)) by {
            assert forall|a: int, b: int| 0 <= a < b < p.len() implies p[a].0 != p[b].0 by {
                assert(p[a] == e[a] && p[b] == e[b]);
            }
        }
        lemma_lookup_at(p, k, i);
    }
}

impl Properties {
    #[verifier::type_invariant]
    closed spec fn inv(&self) -> bool {
        distinct_keys(self@)
    }

    pub fn new() -> (r: Properties)
        ensures
            r@ == Seq::<Entry>::empty(),
    {
        let r = Properties { entries: Vec::new() };
        assert(r@ =~= Seq::<Entry>::empty());
        r
    }

    pub fn len(&self) -> (r: usize)
        ensures
            r == self@.len(),
            distinct_keys(self@),
    {
        proof {
            use_type_invariant(self);
        }
        self.entries.len()
    }

    /// The entries, in order.
    pub fn entries(&self) -> (r: &Vec<(String, String)>)
        ensures
            r@.map_values(|e: (String, String)| (e.0@, e.1@)) == self@,
            distinct_keys(self@),
    {
        proof {
            use_type_invariant(self);
        }
        &self.entries
    }

    /// Sets `key` to `value`: an entry already holding the key takes the new
    /// value in its place; otherwise the entry goes behind the others.
    pub fn insert(&mut self, key: String, value: String)
        ensures
            lookup(final(self)@, key@) == Some(value@),
            forall|k: Seq<char>| k != key@ ==> lookup(final(self)@, k) == lookup(old(self)@, k),
            (forall|i: int| 0 <= i < old(self)@.len() ==> old(self)@[i].0 != key@) ==> final(self)@
                == old(self)@.push((key@, value@)),
            forall|i: int|
                0 <= i < old(self)@.len() && old(self)@[i].0 == key@ ==> final(self)@ == old(
                    self,
                )@.update(i, (key@, value@)),
    {
        proof {
            use_type_invariant(&*self);
        }
        let ghost s0 = self@;
        let ghost e = (key@, value@);
        let mut entries: Vec<(String, String)> = Vec::new();
        std::mem::swap(&mut entries, &mut self.entries);
        assert(entries@.map_values(|e: (String, String)| (e.0@, e.1@)) == s0);
        let mut i: usize = 0;
        while i < entries.len() && entries[i].0 != key
            invariant
                0 <= i <= entries.len(),
                entries@.map_values(|e: (String, String)| (e.0@, e.1@)) == s0,
                forall|j: int| 0 <= j < i ==> s0[j].0 != key@,
            decreases entries.len() - i,
        {
            assert(s0[i as int].0 == entries@[i as int].0@);
            i = i + 1;
        }
        if i < entries.len() {
            assert(s0[i as int].0 == entries@[i as int].0@);
            entries[i] = (key, value);
            let ghost s1 = entries@.map_values(|e: (String, String)| (e.0@, e.1@));
            proof {
                assert(s1 =~= s0.update(i as int, e));
                assert(distinct_keys(s1)) by {
                    assert forall|a: int, b: int| 0 <= a < b < s1.len() implies s1[a].0 != s1[b].0 by {
                        if a == i || b == i {
                            assert(s0[a].0 != s0[b].0);
                        }
                    }
                }
                assert forall|j: int|
                    0 <= j < s0.len() && s0[j].0 == key@ implies s1 == s0.update(j, e) by {
                    if j != i {
                        assert(s0[j].0 != s0[i as int].0);
                    }
                }
                lemma_lookup_at(s1, key@, i as int);
                assert forall|k: Seq<char>| k != key@ implies lookup(s1, k) == lookup(s0, k) by {
                    lemma_lookup_none(s0, k);
                    lemma_lookup_none(s1, k);
                    if exists|j: int| 0 <= j < s0.len() && s0[j].0 == k {
                        let j = choose|j: int| 0 <= j < s0.len() && s0[j].0 == k;
                        lemma_lookup_at(s0, k, j);
                        lemma_lookup_at(s1, k, j);
                    }
                }
            }
            self.entries = entries;
        } else {
            entries.push((key, value));
            let ghost s1 = entries@.map_values(|e: (String, String)| (e.0@, e.1@));
            proof {
                assert(s1 =~= s0.push(e));
                assert(distinct_keys(s1)) by {
                    assert forall|a: int, b: int| 0 <= a < b < s1.len() implies s1[a].0 != s1[b].0 by {
                        if b == s0.len() {
                            assert(s0[a].0 != key@);
                        }
                    }
                }
                lemma_lookup_at(s1, key@, s0.len() as int);
                assert forall|k: Seq<char>| k != key@ implies lookup(s1, k) == lookup(s0, k) by {
                    assert(s1.drop_last() =~= s0);
                }
            }
            self.entries = entries;
        }
    }

    /// The value of `key`, if the dictionary holds it.
    pub fn get(&self, key: &String) -> (r: Option<&String>)
        ensures
            match r {
                Some(v) => lookup(self@, key@) == Some(v@),
                None => lookup(self@, key@) is None,
            },
    {
        let mut i: usize = 0;
        while i < self.entries.len()
            invariant
                0 <= i <= self.entries.len(),
                lookup(self@.take(i as int), key@) is None,
            decreases self.entries.len() - i,
        {
            proof {
                lemma_lookup_prefix(self@, key@, i as int);
            }
            if self.entries[i].0 == *key {
                proof {
                    lemma_lookup_found(self@, key@, i + 1);
                }
                return Some(&self.entries[i].1);
            }
            i = i + 1;
        }
        assert(self@.take(i as int) =~= self@);
        None
    }
}

} // verus!
