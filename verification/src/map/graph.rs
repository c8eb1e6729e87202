use crate::map::sector::Sector;
use crate::map::sector::SectorView;
use vstd::prelude::*;

verus! {

/// The distance reported between two sectors that no path joins.
pub const UNREACHABLE: u8 = 255;

/// The views of a list of sectors.
pub open spec fn sector_views(sectors: Seq<Sector>) -> Seq<SectorView> {
    Seq::new(sectors.len(), |i: int| sectors[i]@)
}

/// A sector list is a graph when every sector sits at the index that is its
/// id, every neighbour is an id of the list, and ids and distances fit a byte
/// with room for the sentinel.
pub open spec fn graph_wf(sectors: Seq<SectorView>) -> bool {
    &&& sectors.len() <= 255
    &&& forall|i: int| 0 <= i < sectors.len() ==> (#[trigger] sectors[i]).id == i
    &&& forall|i: int, j: int|
        0 <= i < sectors.len() && 0 <= j < sectors[i].adjacent.len() ==> (
        #[trigger] sectors[i].adjacent[j]) < sectors.len()
}

/// Every link can be travelled both ways.
pub open spec fn symmetric(sectors: Seq<SectorView>) -> bool {
    forall|a: u8, b: u8| #[trigger] linked(sectors, a, b) ==> linked(sectors, b, a)
}

/// `a` is a sector of the graph and lists `b` as a neighbour.
pub open spec fn linked(sectors: Seq<SectorView>, a: u8, b: u8) -> bool {
    (a as int) < sectors.len() && sectors[a as int].adjacent.contains(b)
}

/// There is a walk of at most `hops` links from `from` to `to`.
pub open spec fn reachable_within(sectors: Seq<SectorView>, from: u8, to: u8, hops: nat) -> bool
    decreases hops,
{
    from == to || (hops > 0 && exists|mid: u8|
        reachable_within(sectors, from, mid, (hops - 1) as nat) && linked(sectors, mid, to))
}

/// `hops` links lead from `from` to `to`, and no fewer do.
pub open spec fn is_least_hops(sectors: Seq<SectorView>, from: u8, to: u8, hops: nat) -> bool {
    &&& reachable_within(sectors, from, to, hops)
    &&& forall|fewer: nat| fewer < hops ==> !reachable_within(sectors, from, to, fewer)
}

/// The least number of links that lead from `from` to `to`; the sentinel
/// where no walk joins them.
pub open spec fn hop_distance(sectors: Seq<SectorView>, from: u8, to: u8) -> int {
    if exists|hops: nat| reachable_within(sectors, from, to, hops) {
        (choose|hops: nat| is_least_hops(sectors, from, to, hops)) as int
    } else {
        255
    }
}

/// A walk stays a walk when more hops are allowed.
pub proof fn lemma_reach_grows(sectors: Seq<SectorView>, from: u8, to: u8, hops: nat, more: nat)
    requires
        reachable_within(sectors, from, to, hops),
        hops <= more,
    ensures
        reachable_within(sectors, from, to, more),
    decreases hops,
{
    if from != to {
        let mid = choose|mid: u8|
            reachable_within(sectors, from, mid, (hops - 1) as nat) && linked(sectors, mid, to);
        lemma_reach_grows(sectors, from, mid, (hops - 1) as nat, (more - 1) as nat);
    }
}

/// A list of sectors in which each is linked to the next.
pub open spec fn is_walk(sectors: Seq<SectorView>, path: Seq<u8>) -> bool {
    &&& path.len() > 0
    &&& forall|i: int| 0 <= i < path.len() - 1 ==> linked(sectors, #[trigger] path[i], path[i + 1])
}

/// The end of a walk is within as many hops of its start as the walk has
/// links.
pub proof fn lemma_walk_reaches(sectors: Seq<SectorView>, path: Seq<u8>)
    requires
        is_walk(sectors, path),
    ensures
        reachable_within(sectors, path.first(), path.last(), (path.len() - 1) as nat),
    decreases path.len(),
{
    if path.len() > 1 {
        let shorter = path.drop_last();
        assert forall|i: int| 0 <= i < shorter.len() - 1 implies linked(
            sectors,
            #[trigger] shorter[i],
            shorter[i + 1],
        ) by {
            assert(linked(sectors, path[i], path[i + 1]));
        }
        lemma_walk_reaches(sectors, shorter);
        assert(linked(sectors, path[path.len() - 2], path[path.len() - 1]));
        assert(shorter.last() == path[path.len() - 2]);
        assert(shorter.first() == path.first());
    }
}

/// A sector within some number of hops is the end of a walk with at most
/// that many links.
pub proof fn lemma_reach_has_walk(sectors: Seq<SectorView>, from: u8, to: u8, hops: nat) -> (path:
    Seq<u8>)
    requires
        reachable_within(sectors, from, to, hops),
    ensures
        is_walk(sectors, path),
        path.first() == from,
        path.last() == to,
        path.len() <= hops + 1,
    decreases hops,
{
    if from == to {
        seq![from]
    } else {
        let mid = choose|mid: u8|
            reachable_within(sectors, from, mid, (hops - 1) as nat) && linked(sectors, mid, to);
        let shorter = lemma_reach_has_walk(sectors, from, mid, (hops - 1) as nat);
        let path = shorter.push(to);
        assert forall|i: int| 0 <= i < path.len() - 1 implies linked(
            sectors,
            #[trigger] path[i],
            path[i + 1],
        ) by {
            if i < shorter.len() - 1 {
                assert(linked(sectors, shorter[i], shorter[i + 1]));
            }
        }
        path
    }
}

/// Every sector on a walk through a well-formed graph is a sector of the
/// graph.
pub proof fn lemma_reach_stays_inside(sectors: Seq<SectorView>, from: u8, to: u8, hops: nat)
    requires
        graph_wf(sectors),
        (from as int) < sectors.len(),
        reachable_within(sectors, from, to, hops),
    ensures
        (to as int) < sectors.len(),
{
    if from != to {
        let mid = choose|mid: u8|
            reachable_within(sectors, from, mid, (hops - 1) as nat) && linked(sectors, mid, to);
        let j = choose|j: int|
            0 <= j < sectors[mid as int].adjacent.len() && sectors[mid as int].adjacent[j] == to;
        assert(sectors[mid as int].adjacent[j] < sectors.len());
    }
}

/// Once one more hop reaches nothing new, no number of hops does.
proof fn lemma_reach_settles(sectors: Seq<SectorView>, from: u8, to: u8, settled: nat, hops: nat)
    requires
        forall|v: u8| #[trigger]
            reachable_within(sectors, from, v, settled + 1) ==> reachable_within(
                sectors,
                from,
                v,
                settled,
            ),
        reachable_within(sectors, from, to, hops),
    ensures
        reachable_within(sectors, from, to, settled),
    decreases hops,
{
    if hops <= settled {
        lemma_reach_grows(sectors, from, to, hops, settled);
    } else if from != to {
        let mid = choose|mid: u8|
            reachable_within(sectors, from, mid, (hops - 1) as nat) && linked(sectors, mid, to);
        lemma_reach_settles(sectors, from, mid, settled, (hops - 1) as nat);
        assert(reachable_within(sectors, from, to, settled + 1));
    }
}

/// The distance is the least number of hops once one is known.
proof fn lemma_least_is_distance(sectors: Seq<SectorView>, from: u8, to: u8, hops: nat)
    requires
        is_least_hops(sectors, from, to, hops),
    ensures
        hop_distance(sectors, from, to) == hops,
{
    let chosen = choose|h: nat| is_least_hops(sectors, from, to, h);
    assert(is_least_hops(sectors, from, to, chosen));
    if chosen < hops {
        assert(!reachable_within(sectors, from, to, chosen));
    }
    if hops < chosen {
        assert(!reachable_within(sectors, from, to, hops));
    }
}

/// How many entries of a list of marks are set.
spec fn count_marked(marks: Seq<bool>) -> nat
    decreases marks.len(),
{
    if marks.len() == 0 {
        0
    } else {
        count_marked(marks.drop_last()) + if marks.last() {
            1nat
        } else {
            0nat
        }
    }
}

proof fn lemma_count_bounded(marks: Seq<bool>)
    ensures
        count_marked(marks) <= marks.len(),
    decreases marks.len(),
{
    if marks.len() > 0 {
        lemma_count_bounded(marks.drop_last());
    }
}

proof fn lemma_count_unmarked(marks: Seq<bool>)
    requires
        forall|i: int| 0 <= i < marks.len() ==> !marks[i],
    ensures
        count_marked(marks) == 0,
    decreases marks.len(),
{
    if marks.len() > 0 {
        lemma_count_unmarked(marks.drop_last());
    }
}

proof fn lemma_count_mark(marks: Seq<bool>, i: int)
    requires
        0 <= i < marks.len(),
        !marks[i],
    ensures
        count_marked(marks.update(i, true)) == count_marked(marks) + 1,
    decreases marks.len(),
{
    let after = marks.update(i, true);
    if i == marks.len() - 1 {
        assert(after.drop_last() =~= marks.drop_last());
    } else {
        lemma_count_mark(marks.drop_last(), i);
        assert(after.drop_last() =~= marks.drop_last().update(i, true));
    }
}

/// The marks are exactly the sectors within `hops` of `from`.
spec fn marks_reach(marks: Seq<bool>, sectors: Seq<SectorView>, from: u8, hops: nat) -> bool {
    &&& marks.len() == sectors.len()
    &&& forall|v: u8|
        (v as int) < marks.len() && #[trigger] marks[v as int] ==> reachable_within(
            sectors,
            from,
            v,
            hops,
        )
    &&& forall|v: u8| #[trigger]
        reachable_within(sectors, from, v, hops) ==> (v as int) < marks.len() && marks[v as int]
}

/// Every sector within `hops` that is not on the frontier has all its
/// neighbours within `hops` too.
spec fn interior_closed(frontier: Seq<u8>, sectors: Seq<SectorView>, from: u8, hops: nat) -> bool {
    forall|m: u8, v: u8|
        reachable_within(sectors, from, m, hops) && #[trigger] linked(sectors, m, v)
            && !frontier.contains(m) ==> reachable_within(sectors, from, v, hops)
}

/// Every sector of the frontier is within `hops`.
spec fn frontier_reached(frontier: Seq<u8>, sectors: Seq<SectorView>, from: u8, hops: nat) -> bool {
    forall|k: int|
        0 <= k < frontier.len() ==> reachable_within(sectors, from, #[trigger] frontier[k], hops)
}

/// While a frontier is expanded: what was marked before (`base`) still is,
/// every mark is within one more hop, and what was marked since waits in
/// `next`.
spec fn sweep_holds(
    seen: Seq<bool>,
    base: Seq<bool>,
    next: Seq<u8>,
    sectors: Seq<SectorView>,
    from: u8,
    hops: nat,
) -> bool {
    &&& seen.len() == sectors.len()
    &&& forall|v: int| 0 <= v < seen.len() && base[v] ==> seen[v]
    &&& forall|v: u8|
        (v as int) < seen.len() && #[trigger] seen[v as int] ==> reachable_within(
            sectors,
            from,
            v,
            hops + 1,
        )
    &&& forall|v: u8|
        (v as int) < seen.len() && #[trigger] seen[v as int] && !base[v as int] ==> next.contains(v)
    &&& forall|k: int|
        0 <= k < next.len() ==> ((#[trigger] next[k]) as int) < seen.len() && seen[next[k] as int]
}

/// The neighbours of the first `done` sectors of the frontier are marked.
spec fn expanded(seen: Seq<bool>, frontier: Seq<u8>, done: int, sectors: Seq<SectorView>) -> bool {
    forall|k: int, v: u8|
        0 <= k < done && #[trigger] linked(sectors, frontier[k], v) ==> (v as int) < seen.len()
            && seen[v as int]
}

/// The first `done` neighbours in a list are marked.
spec fn neighbours_marked(seen: Seq<bool>, adjacent: Seq<u8>, done: int) -> bool {
    forall|k: int|
        0 <= k < done ==> ((#[trigger] adjacent[k]) as int) < seen.len() && seen[adjacent[k] as int]
}

/// Breadth-first search over the adjacency lists: the least number of hops
/// from `from` to `to`, or [`UNREACHABLE`].
pub fn hop_count(sectors: &Vec<Sector>, from: u8, to: u8) -> (distance: u8)
    requires
        graph_wf(sector_views(sectors@)),
    ensures
        distance == hop_distance(sector_views(sectors@), from, to),
        distance == 0 <==> from == to,
{
    let ghost g = sector_views(sectors@);
    if from == to {
        proof {
            lemma_least_is_distance(g, from, to, 0);
        }
        return 0;
    }
    let n = sectors.len();
    if from as usize >= n {
        proof {
            assert forall|hops: nat| !reachable_within(g, from, to, hops) by {
                lemma_isolated_start(g, from, to, hops);
            }
        }
        return UNREACHABLE;
    }
    let mut seen: Vec<bool> = vec![false; n];
    proof {
        lemma_count_unmarked(seen@);
        lemma_count_mark(seen@, from as int);
    }
    seen[from as usize] = true;
    let mut frontier: Vec<u8> = Vec::new();
    frontier.push(from);
    let mut hops: u8 = 0;
    let mut marked: usize = 1;
    proof {
        assert(frontier@[0] == from);
        assert(marks_reach(seen@, g, from, 0));
        assert(interior_closed(frontier@, g, from, 0));
    }
    while frontier.len() > 0
        invariant
            g == sector_views(sectors@),
            graph_wf(g),
            n == sectors.len(),
            (from as int) < n,
            from != to,
            marks_reach(seen@, g, from, hops as nat),
            interior_closed(frontier@, g, from, hops as nat),
            frontier_reached(frontier@, g, from, hops as nat),
            !reachable_within(g, from, to, hops as nat),
            marked == count_marked(seen@),
            marked >= hops + frontier.len(),
        decreases 255 - hops,
    {
        let ghost base = seen@;
        proof {
            lemma_count_bounded(seen@);
            assert forall|v: u8| (v as int) < n && #[trigger] seen@[v as int] implies reachable_within(
                g,
                from,
                v,
                (hops + 1) as nat,
            ) by {
                lemma_reach_grows(g, from, v, hops as nat, (hops + 1) as nat);
            }
        }
        let mut next: Vec<u8> = Vec::new();
        let mut i: usize = 0;
        while i < frontier.len()
            invariant
                g == sector_views(sectors@),
                graph_wf(g),
                n == sectors.len(),
                (from as int) < n,
                from != to,
                hops < 255,
                0 <= i <= frontier.len(),
                marks_reach(base, g, from, hops as nat),
                frontier_reached(frontier@, g, from, hops as nat),
                sweep_holds(seen@, base, next@, g, from, hops as nat),
                expanded(seen@, frontier@, i as int, g),
                (to as int) < n ==> !seen@[to as int],
                marked == count_marked(seen@),
                marked >= hops + frontier.len() + next.len(),
                marked <= n,
            decreases frontier.len() - i,
        {
            let current = frontier[i];
            proof {
                lemma_reach_stays_inside(g, from, current, hops as nat);
            }
            let sector = &sectors[current as usize];
            assert(sector@ == g[current as int]);
            let mut j: usize = 0;
            while j < sector.adjacent.len()
                invariant
                    g == sector_views(sectors@),
                    graph_wf(g),
                    n == sectors.len(),
                    (from as int) < n,
                    from != to,
                    hops < 255,
                    0 <= i < frontier.len(),
                    current == frontier@[i as int],
                    (current as int) < n,
                    sector@ == g[current as int],
                    reachable_within(g, from, current, hops as nat),
                    0 <= j <= sector.adjacent.len(),
                    marks_reach(base, g, from, hops as nat),
                    sweep_holds(seen@, base, next@, g, from, hops as nat),
                    expanded(seen@, frontier@, i as int, g),
                    neighbours_marked(seen@, sector.adjacent@, j as int),
                    (to as int) < n ==> !seen@[to as int],
                    marked == count_marked(seen@),
                    marked >= hops + frontier.len() + next.len(),
                    marked <= n,
                decreases sector.adjacent.len() - j,
            {
                let neighbour = sector.adjacent[j];
                assert(g[current as int].adjacent[j as int] == neighbour);
                assert((neighbour as int) < n);
                assert(linked(g, current, neighbour));
                assert(reachable_within(g, from, neighbour, (hops + 1) as nat));
                if !seen[neighbour as usize] {
                    if neighbour == to {
                        proof {
                            assert forall|fewer: nat| fewer < hops + 1 implies !reachable_within(
                                g,
                                from,
                                to,
                                fewer,
                            ) by {
                                if reachable_within(g, from, to, fewer) {
                                    lemma_reach_grows(g, from, to, fewer, hops as nat);
                                }
                            }
                            lemma_least_is_distance(g, from, to, (hops + 1) as nat);
                        }
                        return hops + 1;
                    }
                    proof {
                        lemma_count_mark(seen@, neighbour as int);
                    }
                    let ghost before = seen@;
                    let ghost waiting = next@;
                    seen[neighbour as usize] = true;
                    marked += 1;
                    next.push(neighbour);
                    proof {
                        lemma_count_bounded(seen@);
                        assert(next@.last() == neighbour);
                        assert forall|v: u8|
                            (v as int) < n && #[trigger] seen@[v as int]
                                && !base[v as int] implies next@.contains(v) by {
                            if v == neighbour {
                                assert(next@[next@.len() - 1] == v);
                            } else {
                                assert(before[v as int]);
                                let k = choose|k: int| 0 <= k < waiting.len() && waiting[k] == v;
                                assert(next@[k] == v);
                            }
                        }
                    }
                }
                j += 1;
            }
            proof {
                assert forall|k: int, v: u8|
                    0 <= k < i + 1 && #[trigger] linked(g, frontier@[k], v) implies (v as int) < n
                    && seen@[v as int] by {
                    if k == i {
                        let at = choose|at: int|
                            0 <= at < sector.adjacent@.len() && sector.adjacent@[at] == v;
                        assert(seen@[sector.adjacent@[at] as int]);
                        assert(g[current as int].adjacent[at] < n);
                    }
                }
            }
            i += 1;
        }
        proof {
            let h = hops as nat;
            assert(marks_reach(seen@, g, from, h + 1)) by {
                assert forall|v: u8| #[trigger] reachable_within(g, from, v, h + 1) implies (v as int)
                    < seen@.len() && seen@[v as int] by {
                    if v == from {
                        assert(reachable_within(g, from, from, h));
                    } else {
                        let mid = choose|mid: u8|
                            reachable_within(g, from, mid, h) && linked(g, mid, v);
                        if frontier@.contains(mid) {
                            let k = choose|k: int| 0 <= k < frontier@.len() && frontier@[k] == mid;
                            assert(linked(g, frontier@[k], v));
                        } else {
                            assert(reachable_within(g, from, v, h));
                        }
                    }
                }
            }
            assert(interior_closed(next@, g, from, h + 1)) by {
                assert forall|m: u8, v: u8|
                    reachable_within(g, from, m, h + 1) && #[trigger] linked(g, m, v)
                        && !next@.contains(m) implies reachable_within(g, from, v, h + 1) by {
                    assert(seen@[m as int]);
                    assert(base[m as int]);
                    assert(reachable_within(g, from, m, h));
                }
            }
            assert(frontier_reached(next@, g, from, h + 1)) by {
                assert forall|k: int| 0 <= k < next.len() implies reachable_within(
                    g,
                    from,
                    #[trigger] next@[k],
                    h + 1,
                ) by {
                    assert(seen@[next@[k] as int]);
                }
            }
            if (to as int) < n {
                assert(!seen@[to as int]);
            }
        }
        frontier = next;
        hops += 1;
    }
    proof {
        let h = hops as nat;
        assert forall|v: u8| #[trigger] reachable_within(g, from, v, h + 1) implies reachable_within(
            g,
            from,
            v,
            h,
        ) by {
            if v != from {
                let mid = choose|mid: u8| reachable_within(g, from, mid, h) && linked(g, mid, v);
                assert(!frontier@.contains(mid));
            }
        }
        assert forall|any: nat| !reachable_within(g, from, to, any) by {
            if reachable_within(g, from, to, any) {
                lemma_reach_settles(g, from, to, h, any);
            }
        }
    }
    UNREACHABLE
}

/// From an id that is no sector of the graph no walk leaves.
proof fn lemma_isolated_start(sectors: Seq<SectorView>, from: u8, to: u8, hops: nat)
    requires
        graph_wf(sectors),
        (from as int) >= sectors.len(),
        from != to,
    ensures
        !reachable_within(sectors, from, to, hops),
    decreases hops,
{
    if reachable_within(sectors, from, to, hops) {
        let mid = choose|mid: u8|
            reachable_within(sectors, from, mid, (hops - 1) as nat) && linked(sectors, mid, to);
        if mid != from {
            lemma_isolated_start(sectors, from, mid, (hops - 1) as nat);
        }
    }
}

/// Whether a list of sectors is a graph.
pub fn is_graph(sectors: &Vec<Sector>) -> (sound: bool)
    ensures
        sound == graph_wf(sector_views(sectors@)),
{
    let ghost g = sector_views(sectors@);
    let n = sectors.len();
    if n > 255 {
        return false;
    }
    let mut i: usize = 0;
    while i < n
        invariant
            n == sectors.len(),
            n <= 255,
            g == sector_views(sectors@),
            0 <= i <= n,
            forall|a: int| 0 <= a < i ==> (#[trigger] g[a]).id == a,
            forall|a: int, b: int|
                0 <= a < i && 0 <= b < g[a].adjacent.len() ==> (#[trigger] g[a].adjacent[b]) < n,
        decreases n - i,
    {
        let sector = &sectors[i];
        assert(sector@ == g[i as int]);
        if sector.id as usize != i {
            return false;
        }
        let mut j: usize = 0;
        while j < sector.adjacent.len()
            invariant
                n == sectors.len(),
                g == sector_views(sectors@),
                0 <= i < n,
                sector@ == g[i as int],
                0 <= j <= sector.adjacent.len(),
                forall|b: int| 0 <= b < j ==> (#[trigger] g[i as int].adjacent[b]) < n,
            decreases sector.adjacent.len() - j,
        {
            if sector.adjacent[j] as usize >= n {
                assert(!(g[i as int].adjacent[j as int] < n));
                return false;
            }
            j += 1;
        }
        i += 1;
    }
    true
}

} // verus!
