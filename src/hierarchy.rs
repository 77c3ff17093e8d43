use vstd::prelude::*;

verus! {

/// The entity that the last of the entries `s` for node `k` gives, if any.
pub open spec fn node_lookup(s: Seq<(usize, u64)>, k: usize) -> Option<u64>
    decreases s.len(),
{
    if s.len() == 0 {
        None
    } else if s.last().0 == k {
        Some(s.last().1)
    } else {
        node_lookup(s.drop_last(), k)
    }
}

/// Node index to entity identifier map, held in fnv's `FnvHashMap`.
#[verifier::external_body]
pub struct NodeMap {
    inner: fnv::FnvHashMap<usize, u64>,
}

/// What a node map holds.
pub uninterp spec fn node_map_contents(m: NodeMap) -> Map<usize, u64>;

/// Relies on `Default` for `fnv::FnvHashMap` (std's `HashMap::default` with
/// the FNV hasher): the map starts empty.
#[verifier::external_body]
fn node_map_new() -> (r: NodeMap)
    ensures
        node_map_contents(r).dom() == Set::<usize>::empty(),
{
    NodeMap { inner: fnv::FnvHashMap::default() }
}

/// Relies on `HashMap::insert` of `fnv::FnvHashMap`: `k` maps to `v`
/// afterwards, the other keys are unchanged.
#[verifier::external_body]
fn node_map_insert(m: &mut NodeMap, k: usize, v: u64)
    ensures
        node_map_contents(*final(m)) == node_map_contents(*old(m)).insert(k, v),
{
    m.inner.insert(k, v);
}

/// Relies on `HashMap::get` of `fnv::FnvHashMap`: the value of `k`, if the
/// map holds `k`.
#[verifier::external_body]
fn node_map_get(m: &NodeMap, k: usize) -> (r: Option<u64>)
    ensures
        r == (if node_map_contents(*m).contains_key(k) {
            Some(node_map_contents(*m)[k])
        } else {
            None
        }),
{
    m.inner.get(&k).copied()
}

/// Defines the hierarchy of nodes that a single animation can control: node
/// index to entity identifier. Only required for animations which target
/// more than a single node.
pub struct AnimationHierarchy {
    pub nodes: NodeMap,
}

impl AnimationHierarchy {
    /// The entity of node `k`.
    pub open spec fn entity(&self, k: usize) -> Option<u64> {
        let m = node_map_contents(self.nodes);
        if m.contains_key(k) {
            Some(m[k])
        } else {
            None
        }
    }

    /// Create a new hierarchy
    pub fn new() -> (r: Self)
        ensures
            forall|k: usize| r.entity(k) is None,
    {
        AnimationHierarchy { nodes: node_map_new() }
    }

    /// Create a new hierarchy containing a single given entity
    pub fn new_single(index: usize, entity: u64) -> (r: Self)
        ensures
            r.entity(index) == Some(entity),
            forall|k: usize| k != index ==> r.entity(k) is None,
    {
        let mut nodes = node_map_new();
        node_map_insert(&mut nodes, index, entity);
        AnimationHierarchy { nodes }
    }

    /// Create a new hierarchy with the given node to entity entries; a later
    /// entry for an index replaces an earlier one.
    pub fn new_many(entries: Vec<(usize, u64)>) -> (r: Self)
        ensures
            forall|k: usize| r.entity(k) == node_lookup(entries@, k),
    {
        let mut nodes = node_map_new();
        let mut i: usize = 0;
        while i < entries.len()
            invariant
                i <= entries@.len(),
                forall|k: usize|
                    (AnimationHierarchy { nodes }).entity(k) == node_lookup(
                        entries@.subrange(0, i as int),
                        k,
                    ),
            decreases entries@.len() - i,
        {
            let (k, e) = entries[i];
            let ghost before = nodes;
            node_map_insert(&mut nodes, k, e);
            proof {
                let s = entries@.subrange(0, i + 1);
                assert(s.drop_last() =~= entries@.subrange(0, i as int));
                assert forall|q: usize|
                    (AnimationHierarchy { nodes }).entity(q) == node_lookup(s, q) by {
                    assert((AnimationHierarchy { nodes: before }).entity(q) == node_lookup(
                        s.drop_last(),
                        q,
                    ));
                }
            }
            i = i + 1;
        }
        assert(entries@.subrange(0, i as int) =~= entries@);
        AnimationHierarchy { nodes }
    }

    /// The entity of node `index`, if the hierarchy has one.
    pub fn get(&self, index: usize) -> (r: Option<u64>)
        ensures
            r == self.entity(index),
    {
        node_map_get(&self.nodes, index)
    }
}

/// Defines a single animation: (node index, channel, sampler index) entries.
/// If the animation only targets a single node, no hierarchy is required.
#[derive(Debug, Clone)]
pub struct Animation {
    pub nodes: Vec<(usize, u64, usize)>,
}

impl Animation {
    /// The target entity of each entry, in order: through `hierarchy` where
    /// one is given (`None` for a node it lacks), else the owning entity.
    pub fn resolve(&self, hierarchy: Option<&AnimationHierarchy>, owner: u64) -> (r: Vec<Option<u64>>)
        ensures
            r@.len() == self.nodes@.len(),
            forall|j: int|
                0 <= j < r@.len() ==> r@[j] == match hierarchy {
                    Some(h) => h.entity(self.nodes@[j].0),
                    None => Some(owner),
                },
    {
        let mut out: Vec<Option<u64>> = Vec::new();
        let mut i: usize = 0;
        while i < self.nodes.len()
            invariant
                i <= self.nodes@.len(),
                out@.len() == i,
                forall|j: int|
                    0 <= j < i ==> out@[j] == match hierarchy {
                        Some(h) => h.entity(self.nodes@[j].0),
                        None => Some(owner),
                    },
            decreases self.nodes@.len() - i,
        {
            let target = match hierarchy {
                Some(h) => h.get(self.nodes[i].0),
                None => Some(owner),
            };
            out.push(target);
            i = i + 1;
        }
        out
    }
}

} // verus!
