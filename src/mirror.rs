use vstd::prelude::*;
use vstd::string::*;
use crate::object::{GlobalObject, ObjectType, interface_name, same_type};
use crate::properties::{Entry, Properties, lookup};

verus! {

/// Objects ordered by strictly increasing id: at most one object per id.
pub open spec fn sorted_by_id(s: Seq<GlobalObject>) -> bool {
    forall|i: int, j: int| 0 <= i < j < s.len() ==> s[i].id < s[j].id
}

pub open spec fn has_id(s: Seq<GlobalObject>, id: u32) -> bool {
    exists|i: int| 0 <= i < s.len() && s[i].id == id
}

/// The registry as a map from id to object.
pub open spec fn map_of(s: Seq<GlobalObject>) -> Map<u32, GlobalObject> {
    Map::new(
        |id: u32| has_id(s, id),
        |id: u32| s[choose|i: int| 0 <= i < s.len() && s[i].id == id],
    )
}

/// The objects without the one advertised under `id`, if there is one.
pub open spec fn without_id(s: Seq<GlobalObject>, id: u32) -> Seq<GlobalObject> {
    if has_id(s, id) {
        s.remove(choose|i: int| 0 <= i < s.len() && s[i].id == id)
    } else {
        s
    }
}

/// A search over the registry: an optional kind, and pairs that the
/// object's properties must all hold.
#[derive(Debug)]
pub struct PropertyQuery {
    pub kind: Option<ObjectType>,
    pub pairs: Vec<(String, String)>,
}

pub open spec fn query_pairs(q: PropertyQuery) -> Seq<Entry> {
    q.pairs@.map_values(|e: (String, String)| (e.0@, e.1@))
}

pub open spec fn holds_all(props: Seq<Entry>, pairs: Seq<Entry>) -> bool {
    forall|j: int| 0 <= j < pairs.len() ==> lookup(props, #[trigger] pairs[j].0) == Some(pairs[j].1)
}

/// An object answers a search for an optional kind and a list of pairs.
pub open spec fn matches_query(o: GlobalObject, kind: Option<ObjectType>, pairs: Seq<Entry>) -> bool {
    &&& (kind matches Some(k) ==> same_type(o.type_, k))
    &&& holds_all(o.props@, pairs)
}

pub open spec fn is_first_match(
    s: Seq<GlobalObject>,
    i: int,
    kind: Option<ObjectType>,
    pairs: Seq<Entry>,
) -> bool {
    &&& 0 <= i < s.len()
    &&& matches_query(s[i], kind, pairs)
    &&& forall|j: int| 0 <= j < i ==> !matches_query(#[trigger] s[j], kind, pairs)
}

/// The object of lowest id that answers the search, if any does.
pub open spec fn find_spec(s: Seq<GlobalObject>, kind: Option<ObjectType>, pairs: Seq<Entry>) -> Option<
    GlobalObject,
> {
    if exists|i: int| is_first_match(s, i, kind, pairs) {
        Some(s[choose|i: int| is_first_match(s, i, kind, pairs)])
    } else {
        None
    }
}

/// The name that a factory object advertises for the kind it produces.
pub open spec fn factory_name_for(o: GlobalObject, produced: Seq<char>) -> Option<Seq<char>> {
    if o.type_ is Factory && lookup(o.props@, "factory.type.name"@) == Some(produced) {
        lookup(o.props@, "factory.name"@)
    } else {
        None
    }
}

pub open spec fn is_first_factory(s: Seq<GlobalObject>, i: int, produced: Seq<char>) -> bool {
    &&& 0 <= i < s.len()
    &&& factory_name_for(s[i], produced) is Some
    &&& forall|j: int| 0 <= j < i ==> factory_name_for(#[trigger] s[j], produced) is None
}

/// The factory name for a kind: that of the lowest-id factory producing it.
pub open spec fn factory_spec(s: Seq<GlobalObject>, kind: ObjectType) -> Option<Seq<char>> {
    let produced = interface_name(kind);
    if exists|i: int| is_first_factory(s, i, produced) {
        factory_name_for(s[choose|i: int| is_first_factory(s, i, produced)], produced)
    } else {
        None
    }
}

pub proof fn lemma_first_match_unique(
    s: Seq<GlobalObject>,
    i: int,
    kind: Option<ObjectType>,
    pairs: Seq<Entry>,
)
    requires
        is_first_match(s, i, kind, pairs),
    ensures
        find_spec(s, kind, pairs) == Some(s[i]),
{
    let c = choose|c: int| is_first_match(s, c, kind, pairs);
    assert(is_first_match(s, c, kind, pairs));
    assert(c == i) by {
        if c < i {
            assert(!matches_query(s[c], kind, pairs));
        } else if i < c {
            assert(!matches_query(s[i], kind, pairs));
        }
    }
}

pub proof fn lemma_first_factory_unique(s: Seq<GlobalObject>, i: int, kind: ObjectType)
    requires
        is_first_factory(s, i, interface_name(kind)),
    ensures
        factory_spec(s, kind) == factory_name_for(s[i], interface_name(kind)),
{
    let produced = interface_name(kind);
    let c = choose|c: int| is_first_factory(s, c, produced);
    assert(is_first_factory(s, c, produced));
    assert(c == i) by {
        if c < i {
            assert(factory_name_for(s[c], produced) is None);
        } else if i < c {
            assert(factory_name_for(s[i], produced) is None);
        }
    }
}

pub proof fn lemma_map_at(s: Seq<GlobalObject>, i: int)
    requires
        sorted_by_id(s),
        0 <= i < s.len(),
    ensures
        map_of(s).contains_key(s[i].id),
        map_of(s)[s[i].id] == s[i],
{
    let id = s[i].id;
    assert(has_id(s, id));
    let c = choose|c: int| 0 <= c < s.len() && s[c].id == id;
    assert(c == i) by {
        if c < i {
            assert(s[c].id < s[i].id);
        } else if i < c {
            assert(s[i].id < s[c].id);
        }
    }
}

proof fn lemma_map_update(s0: Seq<GlobalObject>, s1: Seq<GlobalObject>, i: int)
    requires
        sorted_by_id(s0),
        sorted_by_id(s1),
        0 <= i < s0.len(),
        s1 == s0.update(i, s1[i]),
        s1[i].id == s0[i].id,
    ensures
        map_of(s1) == map_of(s0).insert(s1[i].id, s1[i]),
{
    let m = map_of(s0).insert(s1[i].id, s1[i]);
    assert forall|id: u32| map_of(s1).contains_key(id) <==> m.contains_key(id) by {
        if has_id(s0, id) {
            let k = choose|k: int| 0 <= k < s0.len() && s0[k].id == id;
            assert(s1[k].id == id);
        }
        if has_id(s1, id) {
            let k = choose|k: int| 0 <= k < s1.len() && s1[k].id == id;
            assert(s0[k].id == id);
        }
    }
    assert forall|id: u32| #[trigger] map_of(s1).contains_key(id) implies map_of(s1)[id] == m[id] by {
        let k = choose|k: int| 0 <= k < s1.len() && s1[k].id == id;
        lemma_map_at(s1, k);
        if k != i {
            lemma_map_at(s0, k);
        }
    }
    assert(map_of(s1) =~= m);
}

proof fn lemma_map_insert(s0: Seq<GlobalObject>, s1: Seq<GlobalObject>, i: int)
    requires
        sorted_by_id(s0),
        sorted_by_id(s1),
        0 <= i <= s0.len(),
        s1 == s0.insert(i, s1[i]),
    ensures
        map_of(s1) == map_of(s0).insert(s1[i].id, s1[i]),
{
    let m = map_of(s0).insert(s1[i].id, s1[i]);
    assert forall|id: u32| map_of(s1).contains_key(id) <==> m.contains_key(id) by {
        if has_id(s0, id) {
            let k = choose|k: int| 0 <= k < s0.len() && s0[k].id == id;
            if k < i {
                assert(s1[k].id == id);
            } else {
                assert(s1[k + 1].id == id);
            }
        }
        if has_id(s1, id) {
            let k = choose|k: int| 0 <= k < s1.len() && s1[k].id == id;
            if k < i {
                assert(s0[k].id == id);
            } else if k > i {
                assert(s0[k - 1].id == id);
            }
        }
    }
    assert forall|id: u32| #[trigger] map_of(s1).contains_key(id) implies map_of(s1)[id] == m[id] by {
        let k = choose|k: int| 0 <= k < s1.len() && s1[k].id == id;
        lemma_map_at(s1, k);
        if k < i {
            lemma_map_at(s0, k);
        } else if k > i {
            lemma_map_at(s0, k - 1);
        }
    }
    assert(map_of(s1) =~= m);
}

proof fn lemma_map_remove(s0: Seq<GlobalObject>, s1: Seq<GlobalObject>, i: int)
    requires
        sorted_by_id(s0),
        0 <= i < s0.len(),
        s1 == s0.remove(i),
    ensures
        sorted_by_id(s1),
        map_of(s1) == map_of(s0).remove(s0[i].id),
{
    let id0 = s0[i].id;
    assert forall|a: int, b: int| 0 <= a < b < s1.len() implies s1[a].id < s1[b].id by {
        if a < i && b >= i {
            assert(s1[b] == s0[b + 1]);
        } else if a >= i {
            assert(s1[a] == s0[a + 1]);
            assert(s1[b] == s0[b + 1]);
        }
    }
    let m = map_of(s0).remove(id0);
    assert forall|id: u32| map_of(s1).contains_key(id) <==> m.contains_key(id) by {
        if has_id(s0, id) && id != id0 {
            let k = choose|k: int| 0 <= k < s0.len() && s0[k].id == id;
            if k < i {
                assert(s1[k].id == id);
            } else {
                assert(k != i);
                assert(s1[k - 1].id == id);
            }
        }
        if has_id(s1, id) {
            let k = choose|k: int| 0 <= k < s1.len() && s1[k].id == id;
            if k < i {
                assert(s0[k].id == id);
                assert(s0[k].id < s0[i].id);
            } else {
                assert(s0[k + 1].id == id);
                assert(s0[i].id < s0[k + 1].id);
            }
        }
    }
    assert forall|id: u32| #[trigger] map_of(s1).contains_key(id) implies map_of(s1)[id] == m[id] by {
        let k = choose|k: int| 0 <= k < s1.len() && s1[k].id == id;
        lemma_map_at(s1, k);
        if k < i {
            lemma_map_at(s0, k);
        } else {
            lemma_map_at(s0, k + 1);
        }
    }
    assert(map_of(s1) =~= m);
}

pub proof fn lemma_some_match_has_first(
    s: Seq<GlobalObject>,
    j: int,
    kind: Option<ObjectType>,
    pairs: Seq<Entry>,
)
    requires
        0 <= j < s.len(),
        matches_query(s[j], kind, pairs),
    ensures
        find_spec(s, kind, pairs) is Some,
    decreases j,
{
    if exists|k: int| 0 <= k < j && matches_query(s[k], kind, pairs) {
        let k = choose|k: int| 0 <= k < j && matches_query(s[k], kind, pairs);
        lemma_some_match_has_first(s, k, kind, pairs);
    } else {
        assert(is_first_match(s, j, kind, pairs));
    }
}

/// Taking out an object that does not answer a search leaves its result alone.
pub proof fn lemma_find_after_removing_other(
    s: Seq<GlobalObject>,
    k: int,
    kind: Option<ObjectType>,
    pairs: Seq<Entry>,
)
    requires
        0 <= k < s.len(),
        !matches_query(s[k], kind, pairs),
    ensures
        find_spec(s.remove(k), kind, pairs) == find_spec(s, kind, pairs),
{
    let s2 = s.remove(k);
    if exists|i: int| is_first_match(s, i, kind, pairs) {
        let i = choose|i: int| is_first_match(s, i, kind, pairs);
        lemma_first_match_unique(s, i, kind, pairs);
        let i2 = if i < k {
            i
        } else {
            i - 1
        };
        assert(s2[i2] == s[i]);
        assert forall|j: int| 0 <= j < i2 implies !matches_query(#[trigger] s2[j], kind, pairs) by {
            if j < k {
                assert(s2[j] == s[j]);
            } else {
                assert(s2[j] == s[j + 1]);
            }
        }
        assert(is_first_match(s2, i2, kind, pairs));
        lemma_first_match_unique(s2, i2, kind, pairs);
    } else {
        if exists|i: int| is_first_match(s2, i, kind, pairs) {
            let i = choose|i: int| is_first_match(s2, i, kind, pairs);
            let i1 = if i < k {
                i
            } else {
                i + 1
            };
            assert(s[i1] == s2[i]);
            lemma_some_match_has_first(s, i1, kind, pairs);
        }
    }
}

/// An object advertised and then removed is found by no search afterwards:
/// no result carries its id, and a search that only it answered finds nothing.
pub proof fn lemma_removed_object_not_found(
    s0: Seq<GlobalObject>,
    s1: Seq<GlobalObject>,
    s2: Seq<GlobalObject>,
    o: GlobalObject,
    kind: Option<ObjectType>,
    pairs: Seq<Entry>,
)
    requires
        sorted_by_id(s0),
        sorted_by_id(s1),
        sorted_by_id(s2),
        map_of(s1) == map_of(s0).insert(o.id, o),
        map_of(s2) == map_of(s1).remove(o.id),
    ensures
        !map_of(s2).contains_key(o.id),
        find_spec(s2, kind, pairs) matches Some(x) ==> x.id != o.id,
        (forall|j: int|
            0 <= j < s0.len() && (#[trigger] s0[j]).id != o.id ==> !matches_query(s0[j], kind, pairs))
            ==> find_spec(s2, kind, pairs) is None,
{
    assert(!map_of(s2).contains_key(o.id));
    if exists|i: int| is_first_match(s2, i, kind, pairs) {
        let i = choose|i: int| is_first_match(s2, i, kind, pairs);
        lemma_first_match_unique(s2, i, kind, pairs);
        lemma_map_at(s2, i);
        let id = s2[i].id;
        assert(map_of(s0).contains_key(id));
        let k = choose|k: int| 0 <= k < s0.len() && s0[k].id == id;
        lemma_map_at(s0, k);
        assert(s0[k] == s2[i]);
    }
}

/// The client-side mirror of the daemon's registry, one object per id. The
/// objects are kept in a vector sorted by id, so that every search can say
/// which of several matches it returns: the one of lowest id.
pub struct RegistryMirror {
    objects: Vec<GlobalObject>,
}

impl RegistryMirror {
    pub open spec fn wf(&self) -> bool {
        sorted_by_id(self.spec_objects())
    }

    /// The objects, by increasing id.
    pub closed spec fn spec_objects(&self) -> Seq<GlobalObject> {
        self.objects@
    }

    pub open spec fn map(&self) -> Map<u32, GlobalObject> {
        map_of(self.spec_objects())
    }

    pub fn new() -> (r: RegistryMirror)
        ensures
            r.wf(),
            r.spec_objects() == Seq::<GlobalObject>::empty(),
    {
        RegistryMirror { objects: Vec::new() }
    }

    pub fn len(&self) -> (r: usize)
        ensures
            r == self.spec_objects().len(),
    {
        self.objects.len()
    }

    /// The objects, by increasing id.
    pub fn objects(&self) -> (r: &Vec<GlobalObject>)
        ensures
            r@ == self.spec_objects(),
    {
        &self.objects
    }
}

/// Whether an object answers a query.
pub fn object_matches(o: &GlobalObject, q: &PropertyQuery) -> (r: bool)
    ensures
        r == matches_query(*o, q.kind, query_pairs(*q)),
{
    match &q.kind {
        Some(k) => {
            if !o.type_.same_type(k) {
                return false;
            }
        },
        None => {},
    }
    let mut j: usize = 0;
    while j < q.pairs.len()
        invariant
            0 <= j <= q.pairs.len(),
            q.kind matches Some(k) ==> same_type(o.type_, k),
            forall|t: int| 0 <= t < j ==> lookup(o.props@, #[trigger] query_pairs(*q)[t].0) == Some(
                query_pairs(*q)[t].1,
            ),
        decreases q.pairs.len() - j,
    {
        assert(query_pairs(*q)[j as int] == (q.pairs@[j as int].0@, q.pairs@[j as int].1@));
        match o.props.get(&q.pairs[j].0) {
            Some(v) => {
                if *v != q.pairs[j].1 {
                    assert(lookup(o.props@, query_pairs(*q)[j as int].0) != Some(
                        query_pairs(*q)[j as int].1,
                    ));
                    return false;
                }
            },
            None => {
                assert(lookup(o.props@, query_pairs(*q)[j as int].0) is None);
                return false;
            },
        }
        j = j + 1;
    }
    true
}

fn offered_factory_name<'a>(o: &'a GlobalObject, produced: &String) -> (r: Option<&'a String>)
    ensures
        match r {
            Some(n) => factory_name_for(*o, produced@) == Some(n@),
            None => factory_name_for(*o, produced@) is None,
        },
{
    if !o.type_.is_factory() {
        return None;
    }
    match o.props.get(&String::from_str("factory.type.name")) {
        Some(t) => {
            if *t == *produced {
                o.props.get(&String::from_str("factory.name"))
            } else {
                None
            }
        },
        None => None,
    }
}

impl RegistryMirror {
    /// The object of lowest id that answers the query.
    pub fn find_by_property(&self, q: &PropertyQuery) -> (r: Option<&GlobalObject>)
        requires
            self.wf(),
        ensures
            match r {
                Some(o) => find_spec(self.spec_objects(), q.kind, query_pairs(*q)) == Some(*o),
                None => find_spec(self.spec_objects(), q.kind, query_pairs(*q)) is None,
            },
    {
        let ghost s = self.spec_objects();
        let mut i: usize = 0;
        while i < self.objects.len()
            invariant
                0 <= i <= self.objects.len(),
                s == self.spec_objects(),
                forall|j: int| 0 <= j < i ==> !matches_query(#[trigger] s[j], q.kind, query_pairs(*q)),
            decreases self.objects.len() - i,
        {
            if object_matches(&self.objects[i], q) {
                proof {
                    lemma_first_match_unique(s, i as int, q.kind, query_pairs(*q));
                }
                return Some(&self.objects[i]);
            }
            i = i + 1;
        }
        None
    }

    /// The name under which the daemon offers a factory for `kind`.
    pub fn get_factory_name(&self, kind: &ObjectType) -> (r: Option<&String>)
        requires
            self.wf(),
        ensures
            match r {
                Some(n) => factory_spec(self.spec_objects(), *kind) == Some(n@),
                None => factory_spec(self.spec_objects(), *kind) is None,
            },
    {
        let ghost s = self.spec_objects();
        let produced = kind.to_str();
        let mut i: usize = 0;
        while i < self.objects.len()
            invariant
                0 <= i <= self.objects.len(),
                s == self.spec_objects(),
                produced@ == interface_name(*kind),
                forall|j: int| 0 <= j < i ==> factory_name_for(#[trigger] s[j], produced@) is None,
            decreases self.objects.len() - i,
        {
            match offered_factory_name(&self.objects[i], &produced) {
                Some(n) => {
                    proof {
                        lemma_first_factory_unique(s, i as int, *kind);
                    }
                    return Some(n);
                },
                None => {},
            }
            i = i + 1;
        }
        None
    }

    /// The object advertised under `id`.
    pub fn get(&self, id: u32) -> (r: Option<&GlobalObject>)
        requires
            self.wf(),
        ensures
            match r {
                Some(o) => self.map().contains_key(id) && self.map()[id] == *o,
                None => !self.map().contains_key(id),
            },
    {
        let mut i: usize = 0;
        while i < self.objects.len()
            invariant
                0 <= i <= self.objects.len(),
                self.wf(),
                forall|j: int| 0 <= j < i ==> (#[trigger] self.spec_objects()[j]).id != id,
            decreases self.objects.len() - i,
        {
            if self.objects[i].id == id {
                proof {
                    lemma_map_at(self.spec_objects(), i as int);
                }
                return Some(&self.objects[i]);
            }
            i = i + 1;
        }
        None
    }

    /// Records an advertisement: inserts the object, or replaces the one
    /// advertised before under the same id.
    pub fn upsert(&mut self, o: GlobalObject)
        requires
            old(self).wf(),
        ensures
            final(self).wf(),
            final(self).map() == old(self).map().insert(o.id, o),
    {
        let ghost s0 = self.spec_objects();
        let ghost oo = o;
        let mut i: usize = 0;
        while i < self.objects.len() && self.objects[i].id < o.id
            invariant
                0 <= i <= self.objects.len(),
                self.spec_objects() == s0,
                sorted_by_id(s0),
                forall|j: int| 0 <= j < i ==> (#[trigger] s0[j]).id < o.id,
            decreases self.objects.len() - i,
        {
            i = i + 1;
        }
        if i < self.objects.len() && self.objects[i].id == o.id {
            self.objects[i] = o;
            proof {
                let s1 = self.spec_objects();
                assert(s1 == s0.update(i as int, oo));
                assert(sorted_by_id(s1)) by {
                    assert forall|a: int, b: int| 0 <= a < b < s1.len() implies s1[a].id < s1[b].id by {
                        if a == i {
                            assert(s0[i as int].id < s0[b].id);
                        } else if b == i {
                            assert(s0[a].id < s0[i as int].id);
                        }
                    }
                }
                lemma_map_update(s0, s1, i as int);
            }
        } else {
            self.objects.insert(i, o);
            proof {
                let s1 = self.spec_objects();
                assert(s1 == s0.insert(i as int, oo));
                assert(sorted_by_id(s1)) by {
                    assert forall|a: int, b: int| 0 <= a < b < s1.len() implies s1[a].id < s1[b].id by {
                        if a < i && b == i {
                        } else if a < i && b > i {
                            assert(s1[b] == s0[b - 1]);
                        } else if a == i && b > i {
                            assert(s1[b] == s0[b - 1]);
                            assert(i < s0.len() ==> s0[i as int].id > oo.id);
                            assert(s0[i as int].id <= s0[b - 1].id);
                        } else if a > i {
                            assert(s1[a] == s0[a - 1]);
                            assert(s1[b] == s0[b - 1]);
                        }
                    }
                }
                lemma_map_insert(s0, s1, i as int);
            }
        }
    }

    /// Forgets the object advertised under `id`; nothing happens if there is none.
    pub fn remove(&mut self, id: u32) -> (r: bool)
        requires
            old(self).wf(),
        ensures
            final(self).wf(),
            final(self).map() == old(self).map().remove(id),
            final(self).spec_objects() == without_id(old(self).spec_objects(), id),
            r == old(self).map().contains_key(id),
    {
        let ghost s0 = self.spec_objects();
        let mut i: usize = 0;
        while i < self.objects.len()
            invariant
                0 <= i <= self.objects.len(),
                self.spec_objects() == s0,
                old(self).spec_objects() == s0,
                sorted_by_id(s0),
                forall|j: int| 0 <= j < i ==> (#[trigger] s0[j]).id != id,
            decreases self.objects.len() - i,
        {
            if self.objects[i].id == id {
                proof {
                    assert(s0[i as int].id == id);
                    lemma_map_at(s0, i as int);
                    let c = choose|c: int| 0 <= c < s0.len() && s0[c].id == id;
                    assert(c == i) by {
                        if c < i {
                            assert(s0[c].id < s0[i as int].id);
                        } else if i < c {
                            assert(s0[i as int].id < s0[c].id);
                        }
                    }
                }
                self.objects.remove(i);
                proof {
                    lemma_map_remove(s0, self.spec_objects(), i as int);
                }
                return true;
            }
            i = i + 1;
        }
        proof {
            assert(map_of(s0) =~= map_of(s0).remove(id));
            assert(!has_id(s0, id));
        }
        false
    }
}

} // verus!
