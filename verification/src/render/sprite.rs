//! Draw order and texture batching of sprites. A sprite is known here by
//! what these decisions read of it: its layer, or its texture id.
use vstd::prelude::*;
use crate::components::render::RenderLayer;
use crate::text::str_eq;

verus! {

/// The depth of layer `l`, from 0 (`Background`) to 6 (`Overlay`), in the
/// order the layers are declared.
pub open spec fn layer_rank(l: RenderLayer) -> int {
    match l {
        RenderLayer::Background => 0,
        RenderLayer::Floor => 1,
        RenderLayer::Items => 2,
        RenderLayer::Characters => 3,
        RenderLayer::Effects => 4,
        RenderLayer::UI => 5,
        RenderLayer::Overlay => 6,
    }
}

fn rank_of(l: RenderLayer) -> (r: u8)
    ensures
        r == layer_rank(l),
{
    match l {
        RenderLayer::Background => 0,
        RenderLayer::Floor => 1,
        RenderLayer::Items => 2,
        RenderLayer::Characters => 3,
        RenderLayer::Effects => 4,
        RenderLayer::UI => 5,
        RenderLayer::Overlay => 6,
    }
}

/// `order` lists every position of `layers` exactly once.
pub open spec fn is_permutation_of(order: Seq<usize>, n: int) -> bool {
    &&& order.len() == n
    &&& forall|a: int| 0 <= a < order.len() ==> order[a] < n
    &&& forall|a: int, b: int| 0 <= a < b < order.len() ==> order[a] != order[b]
}

/// Drawing the sprites of `layers` in `order` goes from back to front, and
/// sprites of one layer keep their order.
pub open spec fn is_layer_order(layers: Seq<RenderLayer>, order: Seq<usize>) -> bool {
    &&& is_permutation_of(order, layers.len() as int)
    &&& forall|a: int, b: int| 0 <= a < b < order.len() ==> layer_rank(layers[order[a] as int]) <= layer_rank(layers[order[b] as int])
    &&& forall|a: int, b: int|
        0 <= a < b < order.len() && layer_rank(layers[order[a] as int]) == layer_rank(layers[order[b] as int]) ==> order[a] < order[b]
}

/// The order in which to draw sprites on `layers`: back layers first,
/// sprites of one layer in their given order (a stable sort by layer).
pub fn sort_by_layer(layers: &[RenderLayer]) -> (order: Vec<usize>)
    ensures
        is_layer_order(layers@, order@),
{
    let mut order: Vec<usize> = Vec::new();
    let mut i: usize = 0;
    while i < layers.len()
        invariant
            i <= layers@.len(),
            is_layer_order(layers@.take(i as int), order@),
            forall|a: int| 0 <= a < order@.len() ==> order@[a] < i,
        decreases layers@.len() - i,
    {
        let ghost before = order@;
        let rank = rank_of(layers[i]);
        let mut p: usize = 0;
        while p < order.len() && rank_of(layers[order[p]]) <= rank
            invariant
                p <= order@.len(),
                order@ == before,
                i < layers@.len(),
                forall|a: int| 0 <= a < order@.len() ==> order@[a] < i,
                forall|a: int| 0 <= a < p ==> layer_rank(layers@[order@[a] as int]) <= rank,
            decreases order@.len() - p,
        {
            p += 1;
        }
        order.insert(p, i);
        proof {
            let taken = layers@.take(i as int + 1);
            assert forall|a: int| 0 <= a < before.len() implies #[trigger] taken[before[a] as int] == layers@.take(i as int)[before[a] as int] by {}
            assert(taken[i as int] == layers@[i as int]);
            assert forall|a: int| p <= a < before.len() implies layer_rank(layers@[before[a] as int]) > rank by {
                if p < before.len() {
                    assert(layer_rank(layers@[before[p as int] as int]) > rank);
                    assert(layer_rank(layers@.take(i as int)[before[p as int] as int]) <= layer_rank(layers@.take(i as int)[before[a] as int]) || a == p);
                }
            }
            assert(is_layer_order(taken, order@));
        }
        i += 1;
    }
    assert(layers@.take(layers@.len() as int) =~= layers@);
    order
}

/// Position `i` of `ids` holds the first occurrence of its id.
pub open spec fn is_first_of_kind(ids: Seq<Seq<char>>, i: int) -> bool {
    forall|j: int| 0 <= j < i ==> ids[j] != ids[i]
}

/// The positions among the first `n` of `ids` that hold the first
/// occurrence of their id, in order: one per texture batch.
pub open spec fn group_leaders(ids: Seq<Seq<char>>, n: int) -> Seq<int>
    decreases n,
{
    if n <= 0 {
        Seq::empty()
    } else if is_first_of_kind(ids, n - 1) {
        group_leaders(ids, n - 1).push(n - 1)
    } else {
        group_leaders(ids, n - 1)
    }
}

/// The positions among the first `n` of `ids` that hold `id`, in order.
pub open spec fn members(ids: Seq<Seq<char>>, id: Seq<char>, n: int) -> Seq<int>
    decreases n,
{
    if n <= 0 {
        Seq::empty()
    } else if ids[n - 1] == id {
        members(ids, id, n - 1).push(n - 1)
    } else {
        members(ids, id, n - 1)
    }
}

/// `groups` batches the first `n` sprites with texture ids `ids`: one group
/// per id, in order of first use, each listing the positions of that id in
/// order.
pub open spec fn is_grouping(ids: Seq<Seq<char>>, n: int, groups: Seq<(&str, Vec<usize>)>) -> bool {
    let leaders = group_leaders(ids, n);
    &&& groups.len() == leaders.len()
    &&& forall|g: int| 0 <= g < groups.len() ==> (#[trigger] groups[g]).0@ == ids[leaders[g]]
    &&& forall|g: int| 0 <= g < groups.len() ==> (#[trigger] groups[g]).1@.map_values(|k: usize| k as int)
        == members(ids, ids[leaders[g]], n)
}

proof fn lemma_leaders_are_first(ids: Seq<Seq<char>>, n: int)
    ensures
        forall|g: int| 0 <= g < group_leaders(ids, n).len() ==> {
            let l = #[trigger] group_leaders(ids, n)[g];
            0 <= l < n && is_first_of_kind(ids, l)
        },
        forall|a: int, b: int| 0 <= a < b < group_leaders(ids, n).len() ==> group_leaders(ids, n)[a] < group_leaders(ids, n)[b],
    decreases n,
{
    if n > 0 {
        lemma_leaders_are_first(ids, n - 1);
        let prev = group_leaders(ids, n - 1);
        let cur = group_leaders(ids, n);
        if is_first_of_kind(ids, n - 1) {
            assert(cur == prev.push(n - 1));
            assert forall|g: int| 0 <= g < cur.len() implies {
                let l = #[trigger] cur[g];
                0 <= l < n && is_first_of_kind(ids, l)
            } by {
                if g < prev.len() {
                    assert(cur[g] == prev[g]);
                }
            }
            assert forall|a: int, b: int| 0 <= a < b < cur.len() implies cur[a] < cur[b] by {
                assert(cur[a] == prev[a]);
                if b < prev.len() {
                    assert(cur[b] == prev[b]);
                } else {
                    assert(prev[a] < n - 1);
                }
            }
        }
    }
}

proof fn lemma_first_is_leader(ids: Seq<Seq<char>>, n: int, f: int)
    requires
        0 <= f < n,
        is_first_of_kind(ids, f),
    ensures
        exists|g: int| 0 <= g < group_leaders(ids, n).len() && #[trigger] group_leaders(ids, n)[g] == f,
    decreases n,
{
    if f < n - 1 {
        lemma_first_is_leader(ids, n - 1, f);
        let g = choose|g: int| 0 <= g < group_leaders(ids, n - 1).len() && #[trigger] group_leaders(ids, n - 1)[g] == f;
        assert(group_leaders(ids, n)[g] == f);
    } else {
        assert(group_leaders(ids, n) == group_leaders(ids, n - 1).push(n - 1));
        assert(group_leaders(ids, n)[group_leaders(ids, n - 1).len() as int] == f);
    }
}

proof fn lemma_no_members(ids: Seq<Seq<char>>, id: Seq<char>, n: int)
    requires
        forall|j: int| 0 <= j < n ==> ids[j] != id,
    ensures
        members(ids, id, n) == Seq::<int>::empty(),
    decreases n,
{
    if n > 0 {
        lemma_no_members(ids, id, n - 1);
    }
}

/// An id that occurs among the first `n` positions has a group there.
proof fn lemma_occurring_id_has_leader(ids: Seq<Seq<char>>, n: int, j: int)
    requires
        0 <= j < n,
    ensures
        exists|g: int| 0 <= g < group_leaders(ids, n).len() && ids[#[trigger] group_leaders(ids, n)[g]] == ids[j],
    decreases j,
{
    if is_first_of_kind(ids, j) {
        lemma_first_is_leader(ids, n, j);
    } else {
        let k = choose|k: int| 0 <= k < j && ids[k] == ids[j];
        lemma_occurring_id_has_leader(ids, n, k);
    }
}

/// Batch the sprites with texture ids `ids` by texture (see
/// [`is_grouping`]): each batch is the id and the positions that use it.
pub fn group_by_texture<'a>(ids: &[&'a str]) -> (r: Vec<(&'a str, Vec<usize>)>)
    ensures
        is_grouping(ids@.map_values(|s: &str| s@), ids@.len() as int, r@),
{
    let ghost v = ids@.map_values(|s: &str| s@);
    let mut groups: Vec<(&'a str, Vec<usize>)> = Vec::new();
    let mut i: usize = 0;
    while i < ids.len()
        invariant
            i <= ids@.len(),
            v == ids@.map_values(|s: &str| s@),
            is_grouping(v, i as int, groups@),
        decreases ids@.len() - i,
    {
        let ghost leaders = group_leaders(v, i as int);
        proof {
            lemma_leaders_are_first(v, i as int);
        }
        let mut g: usize = 0;
        while g < groups.len() && !str_eq(groups[g].0, ids[i])
            invariant
                g <= groups@.len(),
                i < ids@.len(),
                v == ids@.map_values(|s: &str| s@),
                is_grouping(v, i as int, groups@),
                forall|h: int| 0 <= h < g ==> groups@[h].0@ != v[i as int],
            decreases groups@.len() - g,
        {
            g += 1;
        }
        let ghost before = groups@;
        if g < groups.len() {
            let (key, mut positions) = groups.remove(g);
            positions.push(i);
            groups.insert(g, (key, positions));
            proof {
                assert(groups@ =~= before.update(g as int, (key, positions)));
                assert(group_leaders(v, i as int + 1) == leaders) by {
                    assert(v[leaders[g as int]] == v[i as int]);
                    assert(!is_first_of_kind(v, i as int));
                }
                assert forall|h: int| 0 <= h < groups@.len() implies (#[trigger] groups@[h]).1@.map_values(|k: usize| k as int)
                    == members(v, v[leaders[h]], i as int + 1) by {
                    if h == g as int {
                        assert(positions@.map_values(|k: usize| k as int) =~= before[h].1@.map_values(|k: usize| k as int).push(
                            i as int,
                        ));
                    } else {
                        if v[leaders[h]] == v[i as int] {
                            assert(is_first_of_kind(v, leaders[h]));
                            assert(is_first_of_kind(v, leaders[g as int]));
                            if leaders[h] < leaders[g as int] {
                                assert(v[leaders[h]] != v[leaders[g as int]]);
                            } else {
                                assert(v[leaders[g as int]] != v[leaders[h]]);
                            }
                        }
                    }
                }
            }
        } else {
            let mut positions: Vec<usize> = Vec::new();
            positions.push(i);
            groups.push((ids[i], positions));
            proof {
                assert forall|j: int| 0 <= j < i implies v[j] != v[i as int] by {
                    if v[j] == v[i as int] {
                        lemma_occurring_id_has_leader(v, i as int, j);
                        let h = choose|h: int| 0 <= h < leaders.len() && v[#[trigger] leaders[h]] == v[j];
                        assert(before[h].0@ == v[leaders[h]]);
                    }
                }
                assert(is_first_of_kind(v, i as int));
                assert(group_leaders(v, i as int + 1) == leaders.push(i as int));
                lemma_no_members(v, v[i as int], i as int);
                assert forall|h: int| 0 <= h < groups@.len() implies (#[trigger] groups@[h]).1@.map_values(|k: usize| k as int)
                    == members(v, v[group_leaders(v, i as int + 1)[h]], i as int + 1) by {
                    if h == before.len() {
                        assert(positions@.map_values(|k: usize| k as int) =~= seq![i as int]);
                        assert(members(v, v[i as int], i as int + 1) =~= seq![i as int]);
                    } else {
                        assert(group_leaders(v, i as int + 1)[h] == leaders[h]);
                        assert(v[leaders[h]] != v[i as int]);
                    }
                }
            }
        }
        i += 1;
    }
    groups
}

/// The layers in the order in which `RenderLayer` declares them.
pub open spec fn declared_layers() -> Seq<RenderLayer> {
    seq![
        RenderLayer::Background,
        RenderLayer::Floor,
        RenderLayer::Items,
        RenderLayer::Characters,
        RenderLayer::Effects,
        RenderLayer::UI,
        RenderLayer::Overlay,
    ]
}

/// Layers are drawn in the order in which they are declared: Background,
/// then Floor, Items, Characters, Effects, UI and last Overlay, each strictly
/// under the next.
pub proof fn law_layers_in_declaration_order()
    ensures
        declared_layers().len() == 7,
        forall|i: int, j: int|
            0 <= i < j < 7 ==> layer_rank(#[trigger] declared_layers()[i]) < layer_rank(#[trigger] declared_layers()[j]),
{
    let order = declared_layers();
    assert forall|i: int| 0 <= i < 7 implies layer_rank(#[trigger] order[i]) == i by {
        assert(order[0] == RenderLayer::Background);
        assert(order[1] == RenderLayer::Floor);
        assert(order[2] == RenderLayer::Items);
        assert(order[3] == RenderLayer::Characters);
        assert(order[4] == RenderLayer::Effects);
        assert(order[5] == RenderLayer::UI);
        assert(order[6] == RenderLayer::Overlay);
    }
}

} // verus!
