use vstd::prelude::*;

verus! {

/// One entry of the registry of optional capabilities: the name that the
/// feature checker knows it by and the identifier handed to the runtime.
pub struct FeatureFlag {
    pub name: String,
    pub id: i32,
}

/// The identifiers of the registry entries that were approved, in registry order.
pub open spec fn enabled_ids(registry: Seq<FeatureFlag>, approved: Seq<bool>) -> Seq<i32>
    decreases registry.len(),
{
    if registry.len() == 0 {
        Seq::empty()
    } else {
        let last = (registry.len() - 1) as int;
        let front = enabled_ids(registry.subrange(0, last), approved.subrange(0, last));
        if approved[last] {
            front.push(registry[last].id)
        } else {
            front
        }
    }
}

/// The identifiers of a registry, in registry order.
pub open spec fn registry_ids(registry: Seq<FeatureFlag>) -> Seq<i32> {
    registry.map_values(|f: FeatureFlag| f.id)
}

/// No two entries of the registry share an identifier.
pub open spec fn ids_unique(registry: Seq<FeatureFlag>) -> bool {
    forall|i: int, j: int|
        0 <= i < registry.len() && 0 <= j < registry.len() && i != j ==> registry[i].id
            != registry[j].id
}

/// `sub` is `full` with some of its elements left out, the others kept in order:
/// `picks[k]` is the position in `full` of the `k`-th element of `sub`.
pub open spec fn is_ordered_selection(sub: Seq<i32>, full: Seq<i32>, picks: Seq<int>) -> bool {
    &&& picks.len() == sub.len()
    &&& forall|k: int| 0 <= k < picks.len() ==> 0 <= #[trigger] picks[k] < full.len()
    &&& forall|k: int| 0 <= k < picks.len() ==> full[#[trigger] picks[k]] == sub[k]
    &&& forall|k: int, l: int| 0 <= k < l < picks.len() ==> picks[k] < picks[l]
}

/// Collects, in registry order, the identifier of every registry entry that the
/// checker approved; `approved[i]` is the checker's answer for `registry[i]`.
pub fn collect_unstable_features(registry: &Vec<FeatureFlag>, approved: &Vec<bool>) -> (r: Vec<i32>)
    requires
        approved.len() == registry.len(),
    ensures
        r@ == enabled_ids(registry@, approved@),
        r.len() <= registry.len(),
{
    let mut out: Vec<i32> = Vec::with_capacity(registry.len());
    let mut i: usize = 0;
    while i < registry.len()
        invariant
            i <= registry.len(),
            approved.len() == registry.len(),
            out@ == enabled_ids(registry@.subrange(0, i as int), approved@.subrange(0, i as int)),
            out.len() <= i,
        decreases registry.len() - i,
    {
        proof {
            let next = (i + 1) as int;
            assert(registry@.subrange(0, next).subrange(0, i as int) =~= registry@.subrange(0, i as int));
            assert(approved@.subrange(0, next).subrange(0, i as int) =~= approved@.subrange(0, i as int));
        }
        if approved[i] {
            out.push(registry[i].id);
        }
        i = i + 1;
    }
    proof {
        assert(registry@.subrange(0, registry.len() as int) =~= registry@);
        assert(approved@.subrange(0, approved.len() as int) =~= approved@);
    }
    out
}

/// Every enabled identifier belongs to the registry, in registry order, so
/// the list is never longer than the registry; with unique registry
/// identifiers it holds no identifier twice.
pub proof fn enabled_ids_select_from_registry(registry: Seq<FeatureFlag>, approved: Seq<bool>)
    requires
        approved.len() == registry.len(),
    ensures
        enabled_ids(registry, approved).len() <= registry.len(),
        exists|picks: Seq<int>|
            is_ordered_selection(enabled_ids(registry, approved), registry_ids(registry), picks),
        ids_unique(registry) ==> enabled_ids(registry, approved).no_duplicates(),
    decreases registry.len(),
{
    let e = enabled_ids(registry, approved);
    if registry.len() == 0 {
        assert(is_ordered_selection(e, registry_ids(registry), Seq::<int>::empty()));
    } else {
        let last = (registry.len() - 1) as int;
        let rf = registry.subrange(0, last);
        let af = approved.subrange(0, last);
        enabled_ids_select_from_registry(rf, af);
        let front = enabled_ids(rf, af);
        let p = choose|picks: Seq<int>| is_ordered_selection(front, registry_ids(rf), picks);
        assert(forall|k: int| 0 <= k < rf.len() ==> registry_ids(rf)[k] == registry_ids(registry)[k]);
        if approved[last] {
            let q = p.push(last);
            assert(is_ordered_selection(e, registry_ids(registry), q));
            if ids_unique(registry) {
                assert(ids_unique(rf));
                assert forall|x: int, y: int| 0 <= x < e.len() && 0 <= y < e.len() && x != y implies e[x] != e[y] by {
                    if x < front.len() && y < front.len() {
                    } else if x < front.len() {
                        assert(e[x] == registry[p[x]].id);
                    } else {
                        assert(e[y] == registry[p[y]].id);
                    }
                }
            }
        } else {
            assert(is_ordered_selection(e, registry_ids(registry), p));
            if ids_unique(registry) {
                assert(ids_unique(rf));
            }
        }
    }
}

} // verus!
