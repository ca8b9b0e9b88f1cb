use vstd::prelude::*;
use crate::map::{
    spec_dir_dx, spec_dir_dy, spec_has_exit, GameMap, MAPCOUNT,
};

verus! {

/// A walk over tile indices in which every step is a legal single move
/// on the map.
pub open spec fn spec_step_path(m: GameMap, p: Seq<int>) -> bool {
    &&& p.len() >= 1
    &&& forall|i: int| 0 <= i < p.len() ==> 0 <= #[trigger] p[i] < 3440
    &&& forall|i: int| 0 <= i < p.len() - 1 ==> m.spec_step_valid(#[trigger] p[i], p[i + 1])
}

/// Tile `b` can be walked to from tile `a` by legal moves.
pub open spec fn spec_walkable(m: GameMap, a: int, b: int) -> bool {
    exists|p: Seq<int>| spec_step_path(m, p) && p[0] == a && p[p.len() - 1] == b
}

/// The direction index of a one-tile displacement.
pub open spec fn spec_dir_of(ddx: int, ddy: int) -> int {
    if ddx == -1 && ddy == 0 {
        0
    } else if ddx == 1 && ddy == 0 {
        1
    } else if ddx == 0 && ddy == -1 {
        2
    } else if ddx == 0 && ddy == 1 {
        3
    } else if ddx == -1 && ddy == -1 {
        4
    } else if ddx == 1 && ddy == -1 {
        5
    } else if ddx == -1 && ddy == 1 {
        6
    } else {
        7
    }
}

/// How many of the first `upto` tiles are settled.
pub open spec fn spec_num_closed(s: Seq<bool>, upto: int) -> int
    decreases upto,
{
    if upto <= 0 {
        0
    } else {
        spec_num_closed(s, upto - 1) + (if s[upto - 1] {
            1int
        } else {
            0int
        })
    }
}

proof fn lemma_num_closed_update(s: Seq<bool>, i: int, upto: int)
    requires
        0 <= i < s.len(),
        upto <= s.len(),
        !s[i],
    ensures
        spec_num_closed(s.update(i, true), upto) == spec_num_closed(s, upto) + (if i < upto {
            1int
        } else {
            0int
        }),
    decreases upto,
{
    if upto > 0 {
        lemma_num_closed_update(s, i, upto - 1);
    }
}

proof fn lemma_num_closed_bound(s: Seq<bool>, upto: int)
    requires
        upto <= s.len(),
    ensures
        0 <= spec_num_closed(s, upto) <= (if upto >= 0 {
            upto
        } else {
            0
        }),
    decreases upto,
{
    if upto > 0 {
        lemma_num_closed_bound(s, upto - 1);
    }
}

proof fn lemma_num_closed_all(s: Seq<bool>, upto: int)
    requires
        upto <= s.len(),
        spec_num_closed(s, upto) == upto,
    ensures
        forall|j: int| 0 <= j < upto ==> s[j],
    decreases upto,
{
    if upto > 0 {
        lemma_num_closed_bound(s, upto - 1);
        lemma_num_closed_all(s, upto - 1);
    }
}

/// When the settled set absorbs every legal step out of it, a walk
/// that starts settled stays settled.
proof fn lemma_walk_stays_settled(m: GameMap, closed: Seq<bool>, p: Seq<int>, i: int)
    requires
        closed.len() == 3440,
        spec_step_path(m, p),
        0 <= i < p.len(),
        closed[p[0]],
        forall|v: int, u: int|
            #![trigger m.spec_step_valid(v, u)]
            0 <= v < 3440 && closed[v] && m.spec_step_valid(v, u) ==> 0 <= u < 3440 && closed[u],
    ensures
        closed[p[i]],
    decreases i,
{
    if i > 0 {
        lemma_walk_stays_settled(m, closed, p, i - 1);
        assert(m.spec_step_valid(p[i - 1], p[i]));
    }
}

/// A path through the grid. `success` reports exactly whether the
/// target can be walked to from the origin by legal single moves;
/// when it holds, `steps` is such a walk: `steps[0]` is the origin,
/// the last entry the target, and every consecutive pair a legal move.
pub struct NavigationPath {
    pub success: bool,
    pub steps: Vec<usize>,
}

impl NavigationPath {
    /// What `success` promises of `steps` for a search from `start` to
    /// `end` on `map`.
    pub open spec fn spec_valid_path(self, map: GameMap, start: int, end: int) -> bool {
        self.success ==> {
            &&& self.steps@.len() >= 1
            &&& self.steps@[0] == start
            &&& self.steps@[self.steps@.len() - 1] == end
            &&& forall|i: int|
                0 <= i < self.steps@.len() - 1 ==> map.spec_step_valid(
                    #[trigger] self.steps@[i] as int,
                    self.steps@[i + 1] as int,
                )
        }
    }
}

/// After settling a tile and relaxing every exit the map offers from
/// it, the settled set again absorbs all legal moves.
proof fn lemma_relax_closure(
    m: GameMap,
    closed: Seq<bool>,
    dist: Seq<u32>,
    exits: Seq<(usize, u32)>,
    best: int,
)
    requires
        m.wf(),
        closed.len() == 3440,
        dist.len() == 3440,
        0 <= best < 3440,
        closed[best],
        forall|j: int|
            0 <= j < exits.len() ==> m.spec_step_valid(best, (#[trigger] exits[j]).0 as int),
        forall|d: int|
            0 <= d < 8 && m.spec_exit_valid(best % 80 + spec_dir_dx(d), best / 80 + spec_dir_dy(d))
                ==> spec_has_exit(
                exits,
                best + spec_dir_dx(d) + 80 * spec_dir_dy(d),
                #[trigger] crate::map::spec_dir_cost(d),
            ),
        forall|j: int|
            0 <= j < exits.len() ==> 0 <= (#[trigger] exits[j]).0 < 3440 && dist[exits[j].0 as int]
                < 0xffff_ffffu32,
        forall|v: int, u: int|
            #![trigger m.spec_step_valid(v, u)]
            0 <= v < 3440 && closed[v] && v != best && m.spec_step_valid(v, u) ==> 0 <= u < 3440
                && dist[u] < 0xffff_ffffu32,
    ensures
        forall|v: int, u: int|
            #![trigger m.spec_step_valid(v, u)]
            0 <= v < 3440 && closed[v] && m.spec_step_valid(v, u) ==> 0 <= u < 3440 && dist[u]
                < 0xffff_ffffu32,
{
    assert forall|v: int, u: int|
        #![trigger m.spec_step_valid(v, u)]
        0 <= v < 3440 && closed[v] && m.spec_step_valid(v, u) implies 0 <= u < 3440 && dist[u]
        < 0xffff_ffffu32 by {
        if v == best {
            let ddx = u % 80 - v % 80;
            let ddy = u / 80 - v / 80;
            let d = spec_dir_of(ddx, ddy);
            assert(0 <= d < 8 && spec_dir_dx(d) == ddx && spec_dir_dy(d) == ddy);
            assert(u == v + ddx + 80 * ddy);
            assert(spec_has_exit(
                exits,
                v + spec_dir_dx(d) + 80 * spec_dir_dy(d),
                crate::map::spec_dir_cost(d),
            ));
            let j = choose|j: int|
                0 <= j < exits.len() && (#[trigger] exits[j]).0 == u && exits[j].1
                    == crate::map::spec_dir_cost(d);
            assert(dist[exits[j].0 as int] < 0xffff_ffffu32);
        }
    }
}

/// Uniform-cost search from `start` to `end` over the map's available
/// exits, lowest tile index first among equal costs, so the walk it
/// returns is a deterministic function of the map and the endpoints.
/// The search finds the target exactly when some chain of legal moves
/// leads there, and the walk it returns is valid move by move.
#[verifier::rlimit(100)]
#[verifier::spinoff_prover]
pub fn a_star_search(start: usize, end: usize, map: &GameMap) -> (path: NavigationPath)
    requires
        map.wf(),
        start < 3440,
        end < 3440,
    ensures
        path.spec_valid_path(*map, start as int, end as int),
        path.success == spec_walkable(*map, start as int, end as int),
        forall|i: int| 0 <= i < path.steps@.len() ==> (#[trigger] path.steps@[i]) < 3440,
{
    let mut dist: Vec<u32> = Vec::new();
    let mut parent: Vec<usize> = Vec::new();
    let mut closed: Vec<bool> = Vec::new();
    let ghost mut rank: Seq<int> = Seq::new(3440, |i: int| -1);
    let mut i: usize = 0;
    while i < MAPCOUNT
        invariant
            i <= 3440,
            dist@.len() == i,
            parent@.len() == i,
            closed@.len() == i,
            forall|j: int| 0 <= j < i ==> (#[trigger] dist@[j]) == 0xffff_ffffu32,
            forall|j: int| 0 <= j < i ==> (#[trigger] parent@[j]) == 3440,
            forall|j: int| 0 <= j < i ==> !(#[trigger] closed@[j]),
        decreases 3440 - i,
    {
        dist.push(0xffff_ffffu32);
        parent.push(3440);
        closed.push(false);
        i = i + 1;
    }
    dist[start] = 0;
    proof {
        assert(spec_num_closed(closed@, 3440) == 0) by {
            lemma_num_closed_bound(closed@, 3440);
            if spec_num_closed(closed@, 3440) > 0 {
                lemma_num_closed_all_false(closed@, 3440);
            }
        }
    }

    let mut rounds: usize = 0;
    let mut found = false;
    let mut exhausted = false;
    while rounds < MAPCOUNT && !found && !exhausted
        invariant
            map.wf(),
            start < 3440,
            end < 3440,
            dist@.len() == 3440,
            parent@.len() == 3440,
            closed@.len() == 3440,
            rank.len() == 3440,
            rounds <= 3440,
            // Every finite distance is bounded, so relaxing never
            // overflows.
            forall|j: int|
                0 <= j < 3440 ==> (#[trigger] dist@[j]) == 0xffff_ffffu32 || dist@[j] < 600000,
            // Settled tiles carry a finite distance and a settle rank
            // below the number of settled tiles.
            forall|j: int| 0 <= j < 3440 ==> ((#[trigger] closed@[j]) <==> rank[j] >= 0),
            forall|j: int| 0 <= j < 3440 && (#[trigger] closed@[j]) ==> dist@[j] < 600000,
            forall|j: int|
                0 <= j < 3440 && (#[trigger] closed@[j]) ==> rank[j] < spec_num_closed(
                    closed@,
                    3440,
                ),
            // Parent links are legal steps into settled tiles, with
            // strictly increasing rank along the link.
            forall|j: int|
                0 <= j < 3440 && (#[trigger] parent@[j]) != 3440 ==> parent@[j] < 3440
                    && map.spec_step_valid(parent@[j] as int, j) && closed@[parent@[j] as int],
            forall|j: int|
                0 <= j < 3440 && closed@[j] && (#[trigger] parent@[j]) != 3440 ==> rank[parent@[j] as int] < rank[j],
            // Any tile but the origin that gained a finite distance
            // gained a parent with it.
            forall|j: int|
                0 <= j < 3440 && j != start && (#[trigger] dist@[j]) != 0xffff_ffffu32
                    ==> parent@[j] != 3440,
            dist@[start as int] == 0,
            parent@[start as int] == 3440,
            // Until the target settles, the settled set absorbs every
            // legal step out of it.
            !found ==> forall|v: int, u: int|
                #![trigger map.spec_step_valid(v, u)]
                0 <= v < 3440 && closed@[v] && map.spec_step_valid(v, u) ==> 0 <= u < 3440
                    && dist@[u] < 0xffff_ffffu32,
            spec_num_closed(closed@, 3440) == rounds,
            found ==> closed@[end as int] && dist@[end as int] < 600000,
            !found ==> !closed@[end as int],
            exhausted ==> forall|j: int|
                0 <= j < 3440 && (#[trigger] dist@[j]) < 0xffff_ffffu32 ==> closed@[j],
        decreases 2 * (3440 - rounds) + (if found || exhausted {
            0int
        } else {
            1int
        }),
    {
        // Pick the unsettled tile with the least tentative distance.
        let mut best: usize = 3440;
        let mut best_d: u32 = 0xffff_ffffu32;
        let mut v: usize = 0;
        while v < MAPCOUNT
            invariant
                dist@.len() == 3440,
                closed@.len() == 3440,
                v <= 3440,
                best == 3440 ==> best_d == 0xffff_ffffu32,
                best == 3440 || (best < 3440 && !closed@[best as int] && best_d == dist@[best as int]
                    && best_d < 0xffff_ffffu32),
                forall|j: int|
                    0 <= j < 3440 ==> (#[trigger] dist@[j]) == 0xffff_ffffu32 || dist@[j] < 600000,
                best == 3440 ==> forall|j: int|
                    0 <= j < v ==> (#[trigger] closed@[j]) || dist@[j] == 0xffff_ffffu32,
            decreases 3440 - v,
        {
            if !closed[v] && dist[v] < best_d {
                best = v;
                best_d = dist[v];
            }
            v = v + 1;
        }
        if best == 3440 {
            exhausted = true;
        } else {
            let ghost closed0 = closed@;
            let ghost old_num = spec_num_closed(closed@, 3440);
            closed[best] = true;
            proof {
                lemma_num_closed_bound(closed0, 3440);
                lemma_num_closed_update(closed0, best as int, 3440);
                rank = rank.update(best as int, old_num);
                assert(spec_num_closed(closed@, 3440) == old_num + 1);
                assert(rank[best as int] == old_num >= 0);
                assert forall|j: int|
                    0 <= j < 3440 && closed@[j] implies rank[j] >= 0 && rank[j] < old_num + 1 by {
                    if j != best {
                        assert(closed0[j]);
                    }
                }
                if parent@[best as int] != 3440 {
                    assert(closed0[parent@[best as int] as int]);
                    assert(rank[parent@[best as int] as int] < old_num);
                }
            }
            if best == end {
                found = true;
            } else {
                let exits = map.get_available_exits(best);
                let mut k: usize = 0;
                while k < exits.len()
                    invariant
                        map.wf(),
                        start < 3440,
                        best < 3440,
                        dist@.len() == 3440,
                        parent@.len() == 3440,
                        closed@.len() == 3440,
                        rank.len() == 3440,
                        best_d < 600000,
                        best_d == dist@[best as int],
                        closed@[best as int],
                        forall|j: int|
                            0 <= j < exits@.len() ==> map.spec_step_valid(
                                best as int,
                                (#[trigger] exits@[j]).0 as int,
                            ),
                        forall|j: int|
                            0 <= j < exits@.len() ==> (#[trigger] exits@[j]).1 == 100 || exits@[j].1
                                == 145,
                        forall|j: int|
                            0 <= j < 3440 ==> (#[trigger] dist@[j]) == 0xffff_ffffu32 || dist@[j]
                                < 600000,
                        forall|j: int| 0 <= j < 3440 ==> ((#[trigger] closed@[j]) <==> rank[j] >= 0),
                        forall|j: int| 0 <= j < 3440 && (#[trigger] closed@[j]) ==> dist@[j] < 600000,
                        forall|j: int|
                            0 <= j < 3440 && (#[trigger] closed@[j]) ==> rank[j] < spec_num_closed(
                                closed@,
                                3440,
                            ),
                        forall|j: int|
                            0 <= j < 3440 && (#[trigger] parent@[j]) != 3440 ==> parent@[j] < 3440
                                && map.spec_step_valid(parent@[j] as int, j)
                                && closed@[parent@[j] as int],
                        forall|j: int|
                            0 <= j < 3440 && closed@[j] && (#[trigger] parent@[j]) != 3440
                                ==> rank[parent@[j] as int] < rank[j],
                        forall|j: int|
                            0 <= j < 3440 && j != start && (#[trigger] dist@[j]) != 0xffff_ffffu32
                                ==> parent@[j] != 3440,
                        dist@[start as int] == 0,
                        parent@[start as int] == 3440,
                        forall|v2: int, u: int|
                            #![trigger map.spec_step_valid(v2, u)]
                            0 <= v2 < 3440 && closed@[v2] && v2 != best && map.spec_step_valid(
                                v2,
                                u,
                            ) ==> 0 <= u < 3440 && dist@[u] < 0xffff_ffffu32,
                        forall|j: int|
                            0 <= j < k ==> 0 <= (#[trigger] exits@[j]).0 < 3440 && dist@[exits@[j].0 as int]
                                < 0xffff_ffffu32,
                    decreases exits@.len() - k,
                {
                    let (to, cost) = exits[k];
                    let cand = best_d + cost;
                    let capped = if cand < 599999 {
                        cand
                    } else {
                        599999
                    };
                    if !closed[to] && capped < dist[to] {
                        dist[to] = capped;
                        parent[to] = best;
                    }
                    k = k + 1;
                }
                proof {
                    lemma_relax_closure(*map, closed@, dist@, exits@, best as int);
                }
            }
            rounds = rounds + 1;
        }
    }

    if !found {
        proof {
            // Either the frontier ran dry or every tile settled; in
            // both cases the settled set absorbs all legal moves and
            // excludes the target, so no walk can reach it.
            if rounds >= 3440 && !exhausted {
                lemma_num_closed_all(closed@, 3440);
            }
            assert(forall|j: int|
                0 <= j < 3440 && (#[trigger] dist@[j]) < 0xffff_ffffu32 ==> closed@[j]);
            assert(closed@[start as int]);
            assert(!closed@[end as int]);
            assert_no_walk(*map, closed@, start as int, end as int);
        }
        return NavigationPath { success: false, steps: Vec::new() };
    }
    proof {
        lemma_num_closed_bound(closed@, 3440);
    }
    // Walk the parent links back from the target; the ranks fall
    // strictly along the chain, so the walk reaches the origin within
    // the tile count.
    let mut rev: Vec<usize> = Vec::new();
    rev.push(end);
    let mut cur: usize = end;
    let mut fuel: usize = 0;
    while cur != start && fuel < MAPCOUNT
        invariant
            map.wf(),
            start < 3440,
            end < 3440,
            cur < 3440,
            fuel <= 3440,
            parent@.len() == 3440,
            dist@.len() == 3440,
            closed@.len() == 3440,
            rank.len() == 3440,
            closed@[cur as int],
            rank[cur as int] >= 0,
            rank[cur as int] <= rank[end as int] - fuel,
            rank[end as int] < 3440,
            forall|j: int| 0 <= j < 3440 ==> ((#[trigger] closed@[j]) <==> rank[j] >= 0),
            forall|j: int|
                0 <= j < 3440 && (#[trigger] parent@[j]) != 3440 ==> parent@[j] < 3440
                    && map.spec_step_valid(parent@[j] as int, j) && closed@[parent@[j] as int],
            forall|j: int|
                0 <= j < 3440 && closed@[j] && (#[trigger] parent@[j]) != 3440 ==> rank[parent@[j] as int] < rank[j],
            forall|j: int|
                0 <= j < 3440 && j != start && (#[trigger] dist@[j]) != 0xffff_ffffu32
                    ==> parent@[j] != 3440,
            forall|j: int| 0 <= j < 3440 && closed@[j] ==> (#[trigger] dist@[j]) < 600000,
            parent@[start as int] == 3440,
            rev@.len() >= 1,
            rev@[0] == end,
            rev@[rev@.len() - 1] == cur,
            forall|j: int| 0 <= j < rev@.len() ==> (#[trigger] rev@[j]) < 3440,
            forall|j: int|
                0 <= j < rev@.len() - 1 ==> map.spec_step_valid(
                    rev@[j + 1] as int,
                    (#[trigger] rev@[j]) as int,
                ),
        decreases 3440 - fuel,
    {
        proof {
            assert(dist@[cur as int] < 600000);
            assert(parent@[cur as int] != 3440);
        }
        let p = parent[cur];
        if p == 3440 {
            // Unreachable: a settled tile other than the origin always
            // has a parent link.
            return NavigationPath { success: false, steps: Vec::new() };
        }
        rev.push(p);
        cur = p;
        fuel = fuel + 1;
    }
    proof {
        assert(cur == start);
    }
    if cur != start {
        return NavigationPath { success: false, steps: Vec::new() };
    }
    // Reverse into origin-first order.
    let mut steps: Vec<usize> = Vec::new();
    let total = rev.len();
    let mut t: usize = 0;
    while t < total
        invariant
            map.wf(),
            total == rev@.len(),
            rev@.len() >= 1,
            t <= total,
            steps@.len() == t,
            forall|j: int| 0 <= j < rev@.len() ==> (#[trigger] rev@[j]) < 3440,
            forall|j: int| 0 <= j < t ==> (#[trigger] steps@[j]) == rev@[total - 1 - j],
            forall|j: int|
                0 <= j < rev@.len() - 1 ==> map.spec_step_valid(
                    rev@[j + 1] as int,
                    (#[trigger] rev@[j]) as int,
                ),
        decreases total - t,
    {
        steps.push(rev[total - 1 - t]);
        t = t + 1;
    }
    proof {
        let p = Seq::new(steps@.len(), |i: int| steps@[i] as int);
        assert(spec_step_path(*map, p) && p[0] == start && p[p.len() - 1] == end);
    }
    NavigationPath { success: true, steps }
}

/// In a state where the settled set absorbs every legal move and the
/// target is unsettled while the origin is settled, no walk connects
/// them.
proof fn assert_no_walk(m: GameMap, closed: Seq<bool>, start: int, end: int)
    requires
        closed.len() == 3440,
        0 <= start < 3440,
        0 <= end < 3440,
        closed[start],
        !closed[end],
        forall|v: int, u: int|
            #![trigger m.spec_step_valid(v, u)]
            0 <= v < 3440 && closed[v] && m.spec_step_valid(v, u) ==> 0 <= u < 3440 && closed[u],
    ensures
        !spec_walkable(m, start, end),
{
    if spec_walkable(m, start, end) {
        let p = choose|p: Seq<int>| spec_step_path(m, p) && p[0] == start && p[p.len() - 1] == end;
        lemma_walk_stays_settled(m, closed, p, p.len() - 1);
    }
}

/// A sequence with no settled entries counts none.
proof fn lemma_num_closed_all_false(s: Seq<bool>, upto: int)
    requires
        upto <= s.len(),
        forall|j: int| 0 <= j < upto ==> !(#[trigger] s[j]),
    ensures
        spec_num_closed(s, upto) == 0,
    decreases upto,
{
    if upto > 0 {
        lemma_num_closed_all_false(s, upto - 1);
    }
}

} // verus!
