//! Sets of layer type ids: one type, a dense table of flags, or a map for
//! classes that hold large ids.
use crate::layertype::{LayerType, LayerTypeID, MAX_LAYER_TYPE};
use std::collections::HashMap;
use vstd::prelude::*;
use vstd::std_specs::hash::spec_keys_iter;
use vstd::std_specs::iter::IteratorSpec;

verus! {

broadcast use vstd::std_specs::hash::group_hash_axioms;

/// A set of layer types, used to pick one of several kinds of layer.
pub trait LayerClass {
    spec fn spec_contains(&self, t: LayerTypeID) -> bool;

    /// Whether layers of type `t` belong to the class.
    fn contains(&self, t: LayerTypeID) -> (r: bool)
        ensures
            r == self.spec_contains(t),
    ;

    /// The ids of the layer types in the class.
    fn layer_types(&self) -> (r: Vec<LayerTypeID>)
        ensures
            forall|t: LayerTypeID| r@.contains(t) <==> self.spec_contains(t),
    ;
}

impl LayerClass for LayerType {
    open spec fn spec_contains(&self, t: LayerTypeID) -> bool {
        self.id == t
    }

    fn contains(&self, t: LayerTypeID) -> (r: bool) {
        self.id == t
    }

    /// The class made of this type alone.
    fn layer_types(&self) -> (r: Vec<LayerTypeID>)
        ensures
            r@ == seq![self.id],
    {
        let r = vec![self.id];
        assert forall|t: LayerTypeID| r@.contains(t) <==> self.spec_contains(t) by {
            if t == self.id {
                assert(r@[0] == t);
            }
        }
        r
    }
}

/// A class held as a table of flags indexed by id.
pub struct LayerClassSlice {
    members: Vec<bool>,
}

impl LayerClass for LayerClassSlice {
    closed spec fn spec_contains(&self, t: LayerTypeID) -> bool {
        t < self.members@.len() && self.members@[t as int]
    }

    fn contains(&self, t: LayerTypeID) -> (r: bool) {
        t < self.members.len() && self.members[t]
    }

    /// The ids of the class, in increasing order.
    fn layer_types(&self) -> (r: Vec<LayerTypeID>)
        ensures
            forall|t: LayerTypeID| r@.contains(t) <==> self.spec_contains(t),
            forall|i: int, j: int| 0 <= i < j < r@.len() ==> r@[i] < r@[j],
    {
        let mut r: Vec<LayerTypeID> = Vec::new();
        let mut i: usize = 0;
        while i < self.members.len()
            invariant
                i <= self.members@.len(),
                forall|t: LayerTypeID| r@.contains(t) <==> (t < i && self.spec_contains(t)),
                forall|a: int, b: int| 0 <= a < b < r@.len() ==> r@[a] < r@[b],
                forall|a: int| 0 <= a < r@.len() ==> r@[a] < i,
            decreases self.members@.len() - i,
        {
            if self.members[i] {
                let ghost before = r@;
                r.push(i);
                assert forall|t: LayerTypeID| r@.contains(t) <==> (t < i + 1 && self.spec_contains(t)) by {
                    if r@.contains(t) && t != i {
                        let k = choose|k: int| 0 <= k < r@.len() && r@[k] == t;
                        assert(before[k] == t);
                    }
                    if t < i && self.spec_contains(t) {
                        let k = choose|k: int| 0 <= k < before.len() && before[k] == t;
                        assert(r@[k] == t);
                    }
                    if t == i {
                        assert(r@[r@.len() - 1] == t);
                    }
                }
            } else {
                assert forall|t: LayerTypeID| r@.contains(t) <==> (t < i + 1 && self.spec_contains(t)) by {
                    if r@.contains(t) {
                        let k = choose|k: int| 0 <= k < r@.len() && r@[k] == t;
                    }
                }
            }
            i = i + 1;
        }
        assert forall|t: LayerTypeID| r@.contains(t) <==> self.spec_contains(t) by {
        }
        r
    }
}

/// A class held as a map from id to membership.
pub struct LayerClassMap {
    members: HashMap<LayerTypeID, bool>,
}

impl LayerClassMap {
    /// The map's entries: each id held, with its membership flag.
    pub closed spec fn entries(&self) -> Map<LayerTypeID, bool> {
        self.members@
    }
}

impl LayerClass for LayerClassMap {
    closed spec fn spec_contains(&self, t: LayerTypeID) -> bool {
        self.members@.contains_key(t) && self.members@[t]
    }

    fn contains(&self, t: LayerTypeID) -> (r: bool) {
        match self.members.get(&t) {
            Some(b) => *b,
            None => false,
        }
    }

    /// The ids of the class, in no particular order.
    fn layer_types(&self) -> (r: Vec<LayerTypeID>)
        ensures
            forall|t: LayerTypeID| r@.contains(t) <==> self.spec_contains(t),
    {
        let mut r: Vec<LayerTypeID> = Vec::new();
        let ghost keys = spec_keys_iter(&self.members).remaining();
        for k in iter: self.members.keys()
            invariant
                iter.seq() == keys,
                forall|t: LayerTypeID|
                    r@.contains(t) <==> (self.spec_contains(t) && exists|j: int|
                        0 <= j < iter.index() && *keys[j] == t),
        {
            let t = *k;
            let ghost i = iter.index();
            assert(t == *keys[i]);
            let ghost before = r@;
            if self.contains(t) {
                r.push(t);
            }
            assert forall|u: LayerTypeID|
                r@.contains(u) <==> (self.spec_contains(u) && exists|j: int|
                    0 <= j < i + 1 && *keys[j] == u) by {
                if r@.contains(u) && u != t {
                    let m = choose|m: int| 0 <= m < r@.len() && r@[m] == u;
                    assert(before[m] == u);
                }
                if before.contains(u) {
                    let m = choose|m: int| 0 <= m < before.len() && before[m] == u;
                    assert(r@[m] == u);
                }
                if self.spec_contains(u) && u == t {
                    assert(r@[r@.len() - 1] == u);
                }
                if self.spec_contains(u) && u != t && exists|j: int| 0 <= j < i + 1 && *keys[j] == u {
                    let j = choose|j: int| 0 <= j < i + 1 && *keys[j] == u;
                    assert(j < i);
                }
            }
        }
        assert forall|t: LayerTypeID| self.spec_contains(t) implies r@.contains(t) by {
            assert(keys.unref().to_set().contains(t));
            let j = choose|j: int| 0 <= j < keys.unref().len() && keys.unref()[j] == t;
            assert(*keys[j] == t);
        }
        r
    }
}

/// A class built by `new_layer_class`: a table when every id is below
/// `MAX_LAYER_TYPE`, a map otherwise.
pub enum AnyLayerClass {
    Dense(LayerClassSlice),
    Sparse(LayerClassMap),
}

impl LayerClass for AnyLayerClass {
    open spec fn spec_contains(&self, t: LayerTypeID) -> bool {
        match self {
            AnyLayerClass::Dense(s) => s.spec_contains(t),
            AnyLayerClass::Sparse(m) => m.spec_contains(t),
        }
    }

    fn contains(&self, t: LayerTypeID) -> (r: bool) {
        match self {
            AnyLayerClass::Dense(s) => s.contains(t),
            AnyLayerClass::Sparse(m) => m.contains(t),
        }
    }

    fn layer_types(&self) -> (r: Vec<LayerTypeID>) {
        match self {
            AnyLayerClass::Dense(s) => s.layer_types(),
            AnyLayerClass::Sparse(m) => m.layer_types(),
        }
    }
}

/// Every id of `types` is below `MAX_LAYER_TYPE`.
pub open spec fn all_small(types: Seq<LayerTypeID>) -> bool {
    forall|i: int| 0 <= i < types.len() ==> types[i] < MAX_LAYER_TYPE
}

/// A table of `max(types) + 1` flags, set at each id of `types`.
fn new_layer_class_slice(types: &[LayerTypeID]) -> (r: LayerClassSlice)
    requires
        all_small(types@),
    ensures
        forall|t: LayerTypeID| r.spec_contains(t) <==> types@.contains(t),
{
    let mut max: usize = 0;
    let mut i: usize = 0;
    while i < types.len()
        invariant
            i <= types@.len(),
            all_small(types@),
            max < MAX_LAYER_TYPE,
            forall|j: int| 0 <= j < i ==> types@[j] <= max,
        decreases types@.len() - i,
    {
        if types[i] > max {
            max = types[i];
        }
        i = i + 1;
    }
    let mut members: Vec<bool> = Vec::new();
    let mut k: usize = 0;
    while k <= max
        invariant
            max < MAX_LAYER_TYPE,
            k <= max + 1,
            members@.len() == k,
            forall|j: int| 0 <= j < k ==> !members@[j],
        decreases max + 1 - k,
    {
        members.push(false);
        k = k + 1;
    }
    let mut i: usize = 0;
    while i < types.len()
        invariant
            i <= types@.len(),
            members@.len() == max + 1,
            forall|j: int| 0 <= j < types@.len() ==> types@[j] <= max,
            forall|t: int|
                0 <= t < members@.len() ==> (members@[t] <==> exists|j: int|
                    0 <= j < i && types@[j] == t),
        decreases types@.len() - i,
    {
        let t = types[i];
        members.set(t, true);
        assert forall|u: int|
            0 <= u < members@.len() implies (members@[u] <==> exists|j: int|
                0 <= j < i + 1 && types@[j] == u) by {
            if u == t {
                assert(types@[i as int] == u);
            }
        }
        i = i + 1;
    }
    let r = LayerClassSlice { members };
    assert forall|t: LayerTypeID| r.spec_contains(t) <==> types@.contains(t) by {
        if types@.contains(t) {
            let j = choose|j: int| 0 <= j < types@.len() && types@[j] == t;
            assert(t <= max);
        }
    }
    r
}

/// A map that holds each id of `types` as a member.
pub fn new_layer_class_map(types: &[LayerTypeID]) -> (r: LayerClassMap)
    ensures
        forall|t: LayerTypeID| r.spec_contains(t) <==> types@.contains(t),
        r.entries().dom() == types@.to_set(),
        forall|t: LayerTypeID| r.entries().contains_key(t) ==> r.entries()[t],
{
    let mut members: HashMap<LayerTypeID, bool> = HashMap::new();
    let mut i: usize = 0;
    while i < types.len()
        invariant
            i <= types@.len(),
            forall|t: LayerTypeID| members@.contains_key(t) <==> types@.subrange(0, i as int).contains(t),
            forall|t: LayerTypeID| members@.contains_key(t) ==> members@[t],
        decreases types@.len() - i,
    {
        let t = types[i];
        let ghost before = members@;
        members.insert(t, true);
        assert(members@ == before.insert(t, true));
        assert forall|u: LayerTypeID|
            members@.contains_key(u) <==> types@.subrange(0, i + 1).contains(u) by {
            let prefix = types@.subrange(0, i as int);
            let next = types@.subrange(0, i + 1);
            assert(next == prefix.push(t));
            if prefix.contains(u) {
                let k = choose|k: int| 0 <= k < prefix.len() && prefix[k] == u;
                assert(next[k] == u);
            }
            if next.contains(u) && u != t {
                let k = choose|k: int| 0 <= k < next.len() && next[k] == u;
                assert(prefix[k] == u);
            }
            if u == t {
                assert(next[i as int] == u);
            }
        }
        i = i + 1;
    }
    assert(types@.subrange(0, types@.len() as int) == types@);
    assert(members@.dom() =~= types@.to_set());
    LayerClassMap { members }
}

/// A class of the ids in `types`, held as a table when every id is below
/// `MAX_LAYER_TYPE` and as a map otherwise, to bound its memory.
pub fn new_layer_class(types: &[LayerTypeID]) -> (r: AnyLayerClass)
    ensures
        forall|t: LayerTypeID| r.spec_contains(t) <==> types@.contains(t),
        r is Dense <==> all_small(types@),
{
    let mut i: usize = 0;
    while i < types.len()
        invariant
            i <= types@.len(),
            forall|j: int| 0 <= j < i ==> types@[j] < MAX_LAYER_TYPE,
        decreases types@.len() - i,
    {
        if types[i] >= MAX_LAYER_TYPE {
            return AnyLayerClass::Sparse(new_layer_class_map(types));
        }
        i = i + 1;
    }
    AnyLayerClass::Dense(new_layer_class_slice(types))
}

} // verus!
