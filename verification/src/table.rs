use vstd::prelude::*;
use crate::types::{Asset, AssetId};

verus! {

/// One binding of a table.
struct Binding<V> {
    key: Asset,
    value: V,
}

/// A finite map from assets to values, kept as a list of bindings in which
/// no asset occurs twice.
pub struct AssetTable<V> {
    bindings: Vec<Binding<V>>,
}

/// Whether position `i` of `bindings` holds `key`.
spec fn bound_at<V>(bindings: Seq<Binding<V>>, key: AssetId, i: int) -> bool {
    0 <= i < bindings.len() && bindings[i].key@ == key
}

/// Whether no asset is bound twice.
spec fn distinct<V>(bindings: Seq<Binding<V>>) -> bool {
    forall|i: int, j: int|
        0 <= i < bindings.len() && 0 <= j < bindings.len() && bindings[i].key@ == bindings[j].key@
            ==> i == j
}

/// The map that a list of bindings stands for.
spec fn as_map<V>(bindings: Seq<Binding<V>>) -> Map<AssetId, V> {
    Map::new(
        |key: AssetId| exists|i: int| bound_at(bindings, key, i),
        |key: AssetId| bindings[choose|i: int| bound_at(bindings, key, i)].value,
    )
}

impl<V> View for AssetTable<V> {
    type V = Map<AssetId, V>;

    closed spec fn view(&self) -> Map<AssetId, V> {
        as_map(self.bindings@)
    }
}

impl<V> AssetTable<V> {
    #[verifier::type_invariant]
    spec fn well_formed(self) -> bool {
        distinct(self.bindings@)
    }

    /// The empty table.
    pub fn new() -> (t: AssetTable<V>)
        ensures
            t@ == Map::<AssetId, V>::empty(),
    {
        let t = AssetTable { bindings: Vec::new() };
        assert(t@ =~= Map::<AssetId, V>::empty());
        t
    }

    /// The position at which `asset` is bound, if it is bound.
    fn position(&self, asset: &Asset) -> (r: Option<usize>)
        ensures
            match r {
                Some(i) => bound_at(self.bindings@, asset@, i as int),
                None => forall|i: int| !bound_at(self.bindings@, asset@, i),
            },
    {
        let mut i: usize = 0;
        while i < self.bindings.len()
            invariant
                i <= self.bindings.len(),
                forall|j: int| 0 <= j < i ==> !bound_at(self.bindings@, asset@, j),
            decreases self.bindings.len() - i,
        {
            if self.bindings[i].key.same(asset) {
                return Some(i);
            }
            i = i + 1;
        }
        None
    }

    /// Whether `asset` is bound.
    pub fn contains(&self, asset: &Asset) -> (b: bool)
        ensures
            b == self@.contains_key(asset@),
    {
        self.position(asset).is_some()
    }

    /// The value bound to `asset`, if there is one.
    pub fn get(&self, asset: &Asset) -> (r: Option<&V>)
        ensures
            match r {
                Some(v) => self@.contains_key(asset@) && *v == self@[asset@],
                None => !self@.contains_key(asset@),
            },
    {
        proof {
            use_type_invariant(self);
        }
        match self.position(asset) {
            Some(i) => {
                assert(bound_at(self.bindings@, asset@, i as int));
                Some(&self.bindings[i].value)
            },
            None => None,
        }
    }

    /// Binds `asset` to `value`, replacing what it was bound to.
    pub fn insert(&mut self, asset: Asset, value: V)
        ensures
            final(self)@ == old(self)@.insert(asset@, value),
    {
        proof {
            use_type_invariant(&*self);
        }
        let ghost before = self.bindings@;
        let ghost key = asset@;
        let found = self.position(&asset);
        let mut bindings: Vec<Binding<V>> = Vec::new();
        std::mem::swap(&mut self.bindings, &mut bindings);
        match found {
            Some(i) => {
                bindings.set(i, Binding { key: asset, value });
                proof {
                    let after = bindings@;
                    assert forall|k: AssetId, j: int| bound_at(after, k, j) == bound_at(before, k, j) by {}
                    assert(distinct(after));
                    assert forall|k: AssetId| #[trigger]
                        as_map(after).contains_key(k) == as_map(before).insert(
                            key,
                            value,
                        ).contains_key(k) by {
                        if k == key {
                            assert(bound_at(after, k, i as int));
                        }
                    }
                    assert forall|k: AssetId| #[trigger] as_map(after).contains_key(k) implies as_map(
                        after,
                    )[k] == as_map(before).insert(key, value)[k] by {
                        let j = choose|j: int| bound_at(after, k, j);
                        assert(bound_at(before, k, j));
                        if k == key {
                            assert(bound_at(after, k, i as int));
                        } else {
                            let j0 = choose|j: int| bound_at(before, k, j);
                            assert(bound_at(after, k, j0));
                        }
                    }
                    assert(as_map(after) =~= as_map(before).insert(key, value));
                }
            },
            None => {
                bindings.push(Binding { key: asset, value });
                proof {
                    let after = bindings@;
                    let n = before.len() as int;
                    assert forall|k: AssetId, j: int| bound_at(before, k, j) implies bound_at(
                        after,
                        k,
                        j,
                    ) by {}
                    assert(bound_at(after, key, n));
                    assert forall|a: int, b: int|
                        0 <= a < after.len() && 0 <= b < after.len() && after[a].key@
                            == after[b].key@ implies a == b by {
                        if a < n && b == n {
                            assert(bound_at(before, key, a));
                        }
                        if b < n && a == n {
                            assert(bound_at(before, key, b));
                        }
                    }
                    assert forall|k: AssetId| #[trigger]
                        as_map(after).contains_key(k) == as_map(before).insert(
                            key,
                            value,
                        ).contains_key(k) by {
                        if as_map(after).contains_key(k) && k != key {
                            let j = choose|j: int| bound_at(after, k, j);
                            assert(bound_at(before, k, j));
                        }
                        if as_map(before).contains_key(k) {
                            let j = choose|j: int| bound_at(before, k, j);
                            assert(bound_at(after, k, j));
                        }
                    }
                    assert forall|k: AssetId| #[trigger] as_map(after).contains_key(k) implies as_map(
                        after,
                    )[k] == as_map(before).insert(key, value)[k] by {
                        let j = choose|j: int| bound_at(after, k, j);
                        if k == key {
                            assert(j == n);
                        } else {
                            assert(bound_at(before, k, j));
                            let j0 = choose|j: int| bound_at(before, k, j);
                            assert(bound_at(after, k, j0));
                        }
                    }
                    assert(as_map(after) =~= as_map(before).insert(key, value));
                }
            },
        }
        self.bindings = bindings;
    }
}

} // verus!
