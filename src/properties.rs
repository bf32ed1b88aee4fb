//! Merging per-call properties with the tracker's global properties.
use vstd::prelude::*;
use crate::strmap::StringMap;

verus! {

/// The property set sent with an event: the per-call properties, if any,
/// with the global ones laid over them, so that a global key wins.
pub open spec fn merged(
    local: Option<Map<Seq<char>, Seq<char>>>,
    global: Map<Seq<char>, Seq<char>>,
) -> Map<Seq<char>, Seq<char>> {
    match local {
        Some(p) => p.union_prefer_right(global),
        None => global,
    }
}

/// The view of optional per-call properties.
pub open spec fn local_view(p: Option<StringMap>) -> Option<Map<Seq<char>, Seq<char>>> {
    match p {
        Some(m) => Some(m@),
        None => None,
    }
}

/// Lays `global` over `local`: every global key is set to its global value,
/// and every other local key keeps its value.
pub fn merge_properties(local: Option<StringMap>, global: &StringMap) -> (r: StringMap)
    ensures
        r@ == merged(local_view(local), global@),
{
    match local {
        Some(mut p) => {
            p.extend(global);
            p
        },
        None => {
            let mut p = StringMap::new();
            p.extend(global);
            assert(p@ =~= global@);
            p
        },
    }
}

/// On a key held by both sets with different values, the merged set holds
/// the global value.
pub proof fn lemma_global_wins(
    local: Map<Seq<char>, Seq<char>>,
    global: Map<Seq<char>, Seq<char>>,
    k: Seq<char>,
)
    requires
        local.contains_key(k),
        global.contains_key(k),
        local[k] != global[k],
    ensures
        merged(Some(local), global).contains_key(k),
        merged(Some(local), global)[k] == global[k],
{
}

/// Where the two sets share no key, the merged set is their union: it holds
/// exactly the keys of both, each with its own value.
pub proof fn lemma_disjoint_union(
    local: Map<Seq<char>, Seq<char>>,
    global: Map<Seq<char>, Seq<char>>,
)
    requires
        local.dom().disjoint(global.dom()),
    ensures
        merged(Some(local), global).dom() == local.dom() + global.dom(),
        forall|k: Seq<char>| #[trigger]
            local.contains_key(k) ==> merged(Some(local), global)[k] == local[k],
        forall|k: Seq<char>| #[trigger]
            global.contains_key(k) ==> merged(Some(local), global)[k] == global[k],
{
    assert(merged(Some(local), global).dom() =~= local.dom() + global.dom());
    assert forall|k: Seq<char>| #[trigger] local.contains_key(k) implies merged(
        Some(local),
        global,
    )[k] == local[k] by {
        assert(!global.dom().contains(k));
    }
}

/// Without per-call properties the merged set is the global set exactly.
pub proof fn lemma_no_local_is_global(global: Map<Seq<char>, Seq<char>>)
    ensures
        merged(None, global) == global,
{
}

} // verus!
