use vstd::prelude::*;

verus! {

/// What draws are ordered by: the pipeline, then the pipeline layout.
#[derive(Clone, Copy, Debug, PartialEq, Eq, Structural)]
pub struct DrawKey {
    pub pipeline: u64,
    pub pipeline_layout: u64,
}

/// `a` comes before `b` in draw order.
pub open spec fn key_lt(a: DrawKey, b: DrawKey) -> bool {
    a.pipeline < b.pipeline || (a.pipeline == b.pipeline && a.pipeline_layout < b.pipeline_layout)
}

/// Draw `i` comes before draw `j` in a stable sort of `keys`: by key, then by position.
pub open spec fn before(keys: Seq<DrawKey>, i: int, j: int) -> bool {
    key_lt(keys[i], keys[j]) || (keys[i] == keys[j] && i < j)
}

/// Compares two keys in draw order.
pub fn key_less(a: DrawKey, b: DrawKey) -> (r: bool)
    ensures
        r == key_lt(a, b),
{
    a.pipeline < b.pipeline || (a.pipeline == b.pipeline && a.pipeline_layout < b.pipeline_layout)
}

/// The order in which a list of draws is recorded after a stable sort: the positions of the
/// draws, sorted by key, draws with equal keys kept in list order. Every position appears once.
pub fn sorted_order(keys: &Vec<DrawKey>) -> (order: Vec<usize>)
    ensures
        order@.len() == keys@.len(),
        forall|k: int| 0 <= k < order@.len() ==> #[trigger] order@[k] < keys@.len(),
        forall|k: int, l: int| 0 <= k < l < order@.len()
            ==> before(keys@, #[trigger] order@[k] as int, #[trigger] order@[l] as int),
{
    let mut order: Vec<usize> = Vec::new();
    let mut i: usize = 0;
    while i < keys.len()
        invariant
            i <= keys@.len(),
            order@.len() == i,
            forall|k: int| 0 <= k < order@.len() ==> #[trigger] order@[k] < i,
            forall|k: int, l: int| 0 <= k < l < order@.len()
                ==> before(keys@, #[trigger] order@[k] as int, #[trigger] order@[l] as int),
        decreases keys@.len() - i,
    {
        let key = keys[i];
        let mut p: usize = 0;
        while p < order.len() && !key_less(key, keys[order[p]])
            invariant
                p <= order@.len(),
                order@.len() == i,
                i < keys@.len(),
                key == keys@[i as int],
                forall|k: int| 0 <= k < order@.len() ==> #[trigger] order@[k] < i,
                forall|k: int| 0 <= k < p ==> !key_lt(key, keys@[#[trigger] order@[k] as int]),
            decreases order@.len() - p,
        {
            p = p + 1;
        }
        let ghost old_order = order@;
        proof {
            // Every draw from `p` on has a key after `key`: the order is sorted.
            assert forall|k: int| p <= k < old_order.len() implies key_lt(key, keys@[#[trigger] old_order[k] as int]) by {
                if p < old_order.len() {
                    assert(key_lt(key, keys@[old_order[p as int] as int]));
                    if k > p {
                        assert(before(keys@, old_order[p as int] as int, old_order[k] as int));
                    }
                }
            }
        }
        order.insert(p, i);
        proof {
            assert forall|k: int, l: int| 0 <= k < l < order@.len()
                implies before(keys@, #[trigger] order@[k] as int, #[trigger] order@[l] as int) by {
                if l < p {
                    assert(order@[k] == old_order[k] && order@[l] == old_order[l]);
                } else if l == p {
                    assert(order@[k] == old_order[k]);
                    assert(!key_lt(key, keys@[old_order[k] as int]));
                } else if k == p {
                    assert(order@[l] == old_order[l - 1]);
                } else if k < p {
                    assert(order@[k] == old_order[k] && order@[l] == old_order[l - 1]);
                } else {
                    assert(order@[k] == old_order[k - 1] && order@[l] == old_order[l - 1]);
                }
            }
            assert forall|k: int| 0 <= k < order@.len() implies #[trigger] order@[k] < i + 1 by {
                if k < p { assert(order@[k] == old_order[k]); }
                else if k > p { assert(order@[k] == old_order[k - 1]); }
            }
        }
        i = i + 1;
    }
    order
}

/// Law: a sorted order lists every draw once.
pub proof fn lemma_sorted_order_is_permutation(keys: Seq<DrawKey>, order: Seq<usize>)
    requires
        order.len() == keys.len(),
        forall|k: int| 0 <= k < order.len() ==> #[trigger] order[k] < keys.len(),
        forall|k: int, l: int| 0 <= k < l < order.len()
            ==> before(keys, #[trigger] order[k] as int, #[trigger] order[l] as int),
    ensures
        forall|k: int, l: int| 0 <= k < l < order.len() ==> order[k] != order[l],
{
    assert forall|k: int, l: int| 0 <= k < l < order.len() implies order[k] != order[l] by {
        assert(before(keys, order[k] as int, order[l] as int));
    }
}

} // verus!
