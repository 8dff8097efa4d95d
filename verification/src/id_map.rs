use vstd::prelude::*;

verus! {

broadcast use vstd::array::group_array_axioms;

/// Compares two 32-byte identifiers byte by byte.
pub fn same_id(a: &[u8; 32], b: &[u8; 32]) -> (r: bool)
    ensures
        r == (*a == *b),
    no_unwind
{
    let mut i: usize = 0;
    while i < 32
        invariant
            0 <= i <= 32,
            forall|j: int| 0 <= j < i ==> a[j] == b[j],
        decreases 32 - i,
    {
        if a[i] != b[i] {
            assert(!(a =~= b));
            return false;
        }
        i = i + 1;
    }
    assert(*a =~= *b);
    true
}

pub open spec fn distinct(s: Seq<[u8; 32]>) -> bool {
    forall|i: int, j: int| 0 <= i < j < s.len() ==> s[i] != s[j]
}

/// The keys of `m` whose value satisfies `p`.
pub open spec fn matching_keys<V>(m: Map<[u8; 32], V>, p: spec_fn(V) -> bool) -> Set<[u8; 32]> {
    m.dom().filter(|k: [u8; 32]| p(m[k]))
}

/// The map whose keys are `ks`, each bound to the value at the same position in `vs`.
pub open spec fn keyed_map<V>(ks: Seq<[u8; 32]>, vs: Seq<V>) -> Map<[u8; 32], V> {
    Map::new(
        |k: [u8; 32]| ks.contains(k),
        |k: [u8; 32]| vs[ks.index_of(k)],
    )
}

pub proof fn lemma_index_of_distinct(ks: Seq<[u8; 32]>, i: int)
    requires
        distinct(ks),
        0 <= i < ks.len(),
    ensures
        ks.contains(ks[i]),
        ks.index_of(ks[i]) == i,
{
    assert(ks.contains(ks[i]));
    let j = ks.index_of(ks[i]);
    assert(0 <= j < ks.len() && ks[j] == ks[i]);
}

pub proof fn lemma_keyed_map_at<V>(ks: Seq<[u8; 32]>, vs: Seq<V>, i: int)
    requires
        distinct(ks),
        0 <= i < ks.len(),
    ensures
        keyed_map(ks, vs).contains_key(ks[i]),
        keyed_map(ks, vs)[ks[i]] == vs[i],
{
    lemma_index_of_distinct(ks, i);
}

proof fn lemma_keyed_map_update<V>(ks: Seq<[u8; 32]>, vs: Seq<V>, i: int)
    requires
        distinct(ks),
        0 <= i < ks.len(),
        ks.len() == vs.len(),
    ensures
        forall|v: V| #[trigger] keyed_map(ks, vs.update(i, v)) == keyed_map(ks, vs).insert(ks[i], v),
{
    assert forall|v: V| #[trigger] keyed_map(ks, vs.update(i, v)) == keyed_map(ks, vs).insert(ks[i], v) by {
        let m1 = keyed_map(ks, vs.update(i, v));
        let m2 = keyed_map(ks, vs).insert(ks[i], v);
        lemma_index_of_distinct(ks, i);
        assert forall|k: [u8; 32]| m1.contains_key(k) implies #[trigger] m1[k] == m2[k] by {
            let j = ks.index_of(k);
            lemma_index_of_distinct(ks, j);
        }
        assert(m1 =~= m2);
    }
}

proof fn lemma_keyed_map_push<V>(ks: Seq<[u8; 32]>, vs: Seq<V>, k: [u8; 32], v: V)
    requires
        distinct(ks),
        ks.len() == vs.len(),
        !ks.contains(k),
    ensures
        distinct(ks.push(k)),
        keyed_map(ks.push(k), vs.push(v)) == keyed_map(ks, vs).insert(k, v),
{
    let ks2 = ks.push(k);
    let vs2 = vs.push(v);
    assert forall|a: int, b: int| 0 <= a < b < ks2.len() implies ks2[a] != ks2[b] by {
        if b == ks.len() {
            assert(ks.contains(ks[a]));
        }
    }
    let m1 = keyed_map(ks2, vs2);
    let m2 = keyed_map(ks, vs).insert(k, v);
    assert forall|x: [u8; 32]| #[trigger] m1.contains_key(x) == m2.contains_key(x) by {
        if ks.contains(x) {
            let j = ks.index_of(x);
            assert(ks2[j] == x);
        }
        if x == k {
            assert(ks2[ks.len() as int] == k);
        }
        if ks2.contains(x) && x != k {
            let j = ks2.index_of(x);
            assert(ks[j] == x);
        }
    }
    assert forall|x: [u8; 32]| m1.contains_key(x) implies #[trigger] m1[x] == m2[x] by {
        let j = ks2.index_of(x);
        lemma_index_of_distinct(ks2, j);
        if x != k {
            lemma_index_of_distinct(ks, j);
        }
    }
    assert(m1 =~= m2);
}

/// Applying `f` to every value of the sequence applies it to every value of the map.
pub proof fn lemma_keyed_map_values<V>(ks: Seq<[u8; 32]>, vs: Seq<V>, ws: Seq<V>, f: spec_fn(V) -> V)
    requires
        ks.len() == vs.len(),
        vs.len() == ws.len(),
        forall|j: int| 0 <= j < vs.len() ==> #[trigger] ws[j] == f(vs[j]),
    ensures
        keyed_map(ks, ws) == keyed_map(ks, vs).map_values(f),
{
    let m1 = keyed_map(ks, ws);
    let m2 = keyed_map(ks, vs).map_values(f);
    assert forall|k: [u8; 32]| m1.contains_key(k) implies #[trigger] m1[k] == m2[k] by {
        let j = ks.index_of(k);
        assert(ws[j] == f(vs[j]));
    }
    assert(m1 =~= m2);
}

/// Counting the keys of a map built from distinct keys is counting the values in order.
pub proof fn lemma_keyed_map_count<V>(ks: Seq<[u8; 32]>, vs: Seq<V>, p: spec_fn(V) -> bool)
    requires
        distinct(ks),
        ks.len() == vs.len(),
    ensures
        keyed_map(ks, vs).dom().finite(),
        keyed_map(ks, vs).dom().len() == ks.len(),
        matching_keys(keyed_map(ks, vs), p).finite(),
        matching_keys(keyed_map(ks, vs), p).len() == vs.filter(p).len(),
    decreases ks.len(),
{
    let m = keyed_map(ks, vs);
    if ks.len() == 0 {
        assert(m.dom() =~= Set::<[u8; 32]>::empty());
        assert(matching_keys(m, p) =~= Set::<[u8; 32]>::empty());
        assert(vs.filter(p) =~= Seq::<V>::empty());
    } else {
        let n = ks.len() - 1;
        let ks0 = ks.drop_last();
        let vs0 = vs.drop_last();
        let k = ks[n];
        let v = vs[n];
        assert(distinct(ks0));
        assert(!ks0.contains(k)) by {
            if ks0.contains(k) {
                let j = ks0.index_of(k);
                assert(ks[j] == ks[n]);
            }
        }
        lemma_keyed_map_count(ks0, vs0, p);
        assert(ks0.push(k) =~= ks);
        assert(vs0.push(v) =~= vs);
        lemma_keyed_map_push(ks0, vs0, k, v);
        let m0 = keyed_map(ks0, vs0);
        assert(m == m0.insert(k, v));
        assert(m.dom() =~= m0.dom().insert(k));
        let f0 = matching_keys(m0, p);
        let f = matching_keys(m, p);
        if p(v) {
            assert(f =~= f0.insert(k));
        } else {
            assert(f =~= f0);
        }
        vs0.lemma_filter_len_push(p, v);
    }
}

/// A copy of the ids `ids`, in order.
pub fn copy_ids(ids: &Vec<[u8; 32]>) -> (r: Vec<[u8; 32]>)
    ensures
        r@ == ids@,
{
    let mut r: Vec<[u8; 32]> = Vec::new();
    let mut i: usize = 0;
    while i < ids.len()
        invariant
            i <= ids@.len(),
            r@ == ids@.take(i as int),
        decreases ids@.len() - i,
    {
        r.push(ids[i]);
        proof {
            assert(ids@.take(i + 1) =~= ids@.take(i as int).push(ids@[i as int]));
        }
        i = i + 1;
    }
    proof {
        assert(ids@.take(ids@.len() as int) =~= ids@);
    }
    r
}

/// A map keyed by 32-byte identifiers that keeps its entries in insertion order.
#[derive(Debug)]
pub struct IdMap<V> {
    keys: Vec<[u8; 32]>,
    vals: Vec<V>,
}

impl<V> IdMap<V> {
    #[verifier::type_invariant]
    closed spec fn inv(&self) -> bool {
        &&& distinct(self.keys@)
        &&& self.keys@.len() == self.vals@.len()
    }

    /// The keys in insertion order.
    pub closed spec fn key_seq(&self) -> Seq<[u8; 32]> {
        self.keys@
    }

    /// The values, at the positions of their keys.
    pub closed spec fn val_seq(&self) -> Seq<V> {
        self.vals@
    }

    /// Facts that hold of every map: no key occurs twice, and each key has one value.
    pub open spec fn well_keyed(&self) -> bool {
        &&& distinct(self.key_seq())
        &&& self.key_seq().len() == self.val_seq().len()
    }

    pub open spec fn view(&self) -> Map<[u8; 32], V> {
        keyed_map(self.key_seq(), self.val_seq())
    }

    pub fn new() -> (r: Self)
        ensures
            r@ == Map::<[u8; 32], V>::empty(),
            r.key_seq() == Seq::<[u8; 32]>::empty(),
            r.val_seq() == Seq::<V>::empty(),
    {
        let r = IdMap { keys: Vec::new(), vals: Vec::new() };
        assert(r@ =~= Map::<[u8; 32], V>::empty());
        r
    }

    /// Number of entries.
    pub fn len(&self) -> (r: usize)
        ensures
            self.well_keyed(),
            r == self.key_seq().len(),
            r == self@.len(),
            self@.dom().finite(),
    {
        proof {
            use_type_invariant(self);
            lemma_keyed_map_count(self.keys@, self.vals@, |v: V| true);
        }
        self.keys.len()
    }

    /// The key at position `i`.
    pub fn key_at(&self, i: usize) -> (r: [u8; 32])
        requires
            i < self.key_seq().len(),
        ensures
            self.well_keyed(),
            r == self.key_seq()[i as int],
            self@.contains_key(r),
            self@[r] == self.val_seq()[i as int],
    {
        proof {
            use_type_invariant(self);
            lemma_keyed_map_at(self.keys@, self.vals@, i as int);
        }
        self.keys[i]
    }

    /// The value at position `i`.
    pub fn value_at(&self, i: usize) -> (r: &V)
        requires
            i < self.key_seq().len(),
        ensures
            self.well_keyed(),
            *r == self.val_seq()[i as int],
            *r == self@[self.key_seq()[i as int]],
    {
        proof {
            use_type_invariant(self);
            lemma_keyed_map_at(self.keys@, self.vals@, i as int);
        }
        &self.vals[i]
    }

    fn index_of(&self, k: &[u8; 32]) -> (r: Option<usize>)
        ensures
            match r {
                Some(i) => i < self.keys@.len() && self.keys@[i as int] == *k,
                None => !self.keys@.contains(*k),
            },
        no_unwind
    {
        let mut i: usize = 0;
        while i < self.keys.len()
            invariant
                i <= self.keys@.len(),
                forall|j: int| 0 <= j < i ==> self.keys@[j] != *k,
            decreases self.keys@.len() - i,
        {
            if same_id(&self.keys[i], k) {
                return Some(i);
            }
            i = i + 1;
        }
        None
    }

    /// Whether `k` has a value.
    pub fn contains_key(&self, k: &[u8; 32]) -> (r: bool)
        ensures
            r == self@.contains_key(*k),
    {
        self.index_of(k).is_some()
    }

    /// The value of `k`, if any.
    pub fn get(&self, k: &[u8; 32]) -> (r: Option<&V>)
        ensures
            r is Some <==> self@.contains_key(*k),
            r is Some ==> *(r->0) == self@[*k],
    {
        proof { use_type_invariant(self); }
        match self.index_of(k) {
            Some(i) => {
                proof { lemma_keyed_map_at(self.keys@, self.vals@, i as int); }
                Some(&self.vals[i])
            },
            None => None,
        }
    }

    /// A mutable borrow of the value of `k`, if any.
    pub fn get_mut(&mut self, k: &[u8; 32]) -> (r: Option<&mut V>)
        ensures
            r is Some <==> old(self)@.contains_key(*k),
            r is Some ==> *(r->0) == old(self)@[*k],
            r is Some ==> final(self)@ == old(self)@.insert(*k, *final(r->0)),
            final(self).key_seq() == old(self).key_seq(),
            r is None ==> final(self).val_seq() == old(self).val_seq(),
        no_unwind
    {
        proof { use_type_invariant(&*self); }
        match self.index_of(k) {
            Some(i) => {
                proof {
                    lemma_keyed_map_update(self.keys@, self.vals@, i as int);
                    lemma_keyed_map_at(self.keys@, self.vals@, i as int);
                }
                Some(&mut self.vals[i])
            },
            None => None,
        }
    }

    /// A mutable borrow of the value at position `i`.
    pub fn value_at_mut(&mut self, i: usize) -> (r: &mut V)
        requires
            i < old(self).key_seq().len(),
        ensures
            old(self).well_keyed(),
            *r == old(self).val_seq()[i as int],
            *r == old(self)@[old(self).key_seq()[i as int]],
            final(self).key_seq() == old(self).key_seq(),
            final(self).val_seq() == old(self).val_seq().update(i as int, *final(r)),
            final(self)@ == old(self)@.insert(old(self).key_seq()[i as int], *final(r)),
        no_unwind
    {
        proof {
            use_type_invariant(&*self);
            lemma_keyed_map_update(self.keys@, self.vals@, i as int);
            lemma_keyed_map_at(self.keys@, self.vals@, i as int);
        }
        &mut self.vals[i]
    }

    /// The position of `k`, if it has a value.
    pub fn position(&self, k: &[u8; 32]) -> (r: Option<usize>)
        ensures
            self.well_keyed(),
            match r {
                Some(i) => i < self.key_seq().len() && self.key_seq()[i as int] == *k && self@.contains_key(*k),
                None => !self@.contains_key(*k),
            },
    {
        proof { use_type_invariant(self); }
        let r = self.index_of(k);
        proof {
            if let Some(i) = r {
                lemma_keyed_map_at(self.keys@, self.vals@, i as int);
            }
        }
        r
    }

    /// Binds `k` to `v`: an existing key keeps its position, a new key goes last.
    pub fn insert(&mut self, k: [u8; 32], v: V)
        ensures
            final(self)@ == old(self)@.insert(k, v),
            old(self)@.contains_key(k) ==> final(self).key_seq() == old(self).key_seq(),
            old(self)@.contains_key(k) ==> exists|i: int| 0 <= i < old(self).key_seq().len()
                && old(self).key_seq()[i] == k
                && final(self).val_seq() == old(self).val_seq().update(i, v),
            !old(self)@.contains_key(k) ==> final(self).key_seq() == old(self).key_seq().push(k),
            !old(self)@.contains_key(k) ==> final(self).val_seq() == old(self).val_seq().push(v),
            final(self)@.dom().finite(),
            final(self)@.len() == (if old(self)@.contains_key(k) { old(self)@.len() } else { old(self)@.len() + 1 }),
    {
        proof {
            use_type_invariant(&*self);
            lemma_keyed_map_count(self.keys@, self.vals@, |x: V| true);
        }
        match self.index_of(&k) {
            Some(i) => {
                proof {
                    lemma_keyed_map_update(self.keys@, self.vals@, i as int);
                }
                let slot = &mut self.vals[i];
                *slot = v;
                proof {
                    lemma_keyed_map_count(self.keys@, self.vals@, |x: V| true);
                }
            },
            None => {
                proof {
                    lemma_keyed_map_push(self.keys@, self.vals@, k, v);
                }
                let mut taken = IdMap::new();
                std::mem::swap(&mut taken, self);
                let IdMap { keys: mut ks, vals: mut vs } = taken;
                ks.push(k);
                vs.push(v);
                *self = IdMap { keys: ks, vals: vs };
                proof {
                    lemma_keyed_map_count(self.keys@, self.vals@, |x: V| true);
                }
            },
        }
    }
}

impl<V: Clone> Clone for IdMap<V> {
    /// The same keys in the same order, each value cloned.
    fn clone(&self) -> (r: Self)
        ensures
            r.key_seq() == self.key_seq(),
            r.val_seq().len() == self.val_seq().len(),
            forall|i: int| 0 <= i < self.val_seq().len() ==> cloned::<V>(self.val_seq()[i], #[trigger] r.val_seq()[i]),
            r@.dom() == self@.dom(),
            forall|k: [u8; 32]| #[trigger] self@.contains_key(k) ==> cloned::<V>(self@[k], r@[k]),
    {
        proof {
            use_type_invariant(self);
        }
        let keys = copy_ids(&self.keys);
        let vals = self.vals.clone();
        let r = IdMap { keys, vals };
        proof {
            assert(r@.dom() =~= self@.dom());
            assert forall|k: [u8; 32]| #[trigger] self@.contains_key(k) implies cloned::<V>(self@[k], r@[k]) by {
                let j = self.keys@.index_of(k);
                assert(0 <= j < self.vals@.len());
            }
        }
        r
    }
}

} // verus!
