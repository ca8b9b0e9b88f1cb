use vstd::prelude::*;
use crate::components::{Point, Viewshed, WantsToMelee};
use crate::map::spec_xy_idx;
use crate::pathfinding::{a_star_search, spec_walkable};
use crate::world::World;

verus! {

/// Drives every monster's turn: melee the player when adjacent, walk
/// one step along a path towards the player when it is in sight, and
/// otherwise stand still. Runs only during the monster turn.
pub struct MonsterAI {}

/// Entity `e` takes a monster turn: alive, tagged as a monster, with a
/// viewshed and a position.
pub open spec fn spec_is_monster_actor(w: World, e: int) -> bool {
    &&& 0 <= e < w.n()
    &&& w.alive@[e]
    &&& w.monsters@[e] is Some
    &&& w.viewsheds@[e] is Some
    &&& w.positions@[e] is Some
}

/// Within melee reach of the player: at most one tile away on each
/// axis, the straight-line distance below one and a half tiles.
pub open spec fn spec_adjacent_to_player(w: World, e: int) -> bool {
    let p = w.positions@[e]->0;
    let dx = p.x - w.player_pos.x;
    let dy = p.y - w.player_pos.y;
    dx * dx + dy * dy <= 2
}

/// The monster's cached viewshed lists the player's tile.
pub open spec fn spec_sees_player(w: World, e: int) -> bool {
    exists|k: int|
        0 <= k < w.viewsheds@[e]->0.visible_tiles@.len() && (
        #[trigger] w.viewsheds@[e]->0.visible_tiles@[k]) == w.player_pos
}

/// The tile index a positioned entity occupies.
pub open spec fn spec_pos_idx(w: World, e: int) -> int {
    spec_xy_idx(w.positions@[e]->0.x as int, w.positions@[e]->0.y as int)
}

/// The tile index of the player-position resource.
pub open spec fn spec_player_idx(w: World) -> int {
    spec_xy_idx(w.player_pos.x as int, w.player_pos.y as int)
}

/// True if some entry of the vector equals the given point.
fn contains_point(v: &Vec<Point>, p: Point) -> (r: bool)
    ensures
        r == exists|k: int| 0 <= k < v@.len() && (#[trigger] v@[k]) == p,
{
    let mut i: usize = 0;
    while i < v.len()
        invariant
            i <= v@.len(),
            forall|k: int| 0 <= k < i ==> (#[trigger] v@[k]) != p,
        decreases v@.len() - i,
    {
        if v[i].x == p.x && v[i].y == p.y {
            proof {
                assert(v@[i as int] == p);
            }
            return true;
        }
        i = i + 1;
    }
    false
}

impl MonsterAI {
    pub fn run(ecs: &mut World)
        requires
            old(ecs).wf(),
            0 <= old(ecs).player_pos.x < 80,
            0 <= old(ecs).player_pos.y < 43,
        ensures
            final(ecs).wf(),
            final(ecs).n() == old(ecs).n(),
            old(ecs).run_state != crate::state::RunState::MonsterTurn ==> *final(ecs) == *old(ecs),
            // An adjacent monster queues a melee intent on the player
            // and stays put; a distant one either stands still or takes
            // one legal step and marks its viewshed dirty.
            forall|e: int|
                old(ecs).run_state == crate::state::RunState::MonsterTurn && spec_is_monster_actor(*old(ecs), e) && spec_adjacent_to_player(*old(ecs), e) ==> (
                #[trigger] final(ecs).wants_to_melee@[e]) == Some(
                    WantsToMelee { target: old(ecs).player_entity },
                ) && final(ecs).positions@[e] == old(ecs).positions@[e] && final(ecs).viewsheds@[e] == old(ecs).viewsheds@[e],
            forall|e: int|
                old(ecs).run_state == crate::state::RunState::MonsterTurn && spec_is_monster_actor(*old(ecs), e) && !spec_adjacent_to_player(*old(ecs), e) ==> (
                #[trigger] final(ecs).wants_to_melee@[e]) == old(ecs).wants_to_melee@[e] && ((final(ecs).positions@[e] == old(ecs).positions@[e] && final(ecs).viewsheds@[e] == old(ecs).viewsheds@[e]) || (final(ecs).positions@[e] is Some && old(ecs).map.spec_step_valid(
                    spec_xy_idx(
                        old(ecs).positions@[e]->0.x as int,
                        old(ecs).positions@[e]->0.y as int,
                    ),
                    spec_xy_idx(
                        final(ecs).positions@[e]->0.x as int,
                        final(ecs).positions@[e]->0.y as int,
                    ),
                ) && final(ecs).viewsheds@[e] is Some && final(ecs).viewsheds@[e]->0.dirty)),
            // A distant monster that sees the player on a walkable
            // path does move: one legal step, viewshed dirtied.
            forall|e: int|
                old(ecs).run_state == crate::state::RunState::MonsterTurn && spec_is_monster_actor(*old(ecs), e) && !spec_adjacent_to_player(*old(ecs), e) && spec_sees_player(*old(ecs), e) && spec_walkable(old(ecs).map, spec_pos_idx(*old(ecs), e), spec_player_idx(*old(ecs))) ==> (#[trigger] final(ecs).positions@[e]) is Some && old(ecs).map.spec_step_valid(
                    spec_pos_idx(*old(ecs), e),
                    spec_xy_idx(
                        final(ecs).positions@[e]->0.x as int,
                        final(ecs).positions@[e]->0.y as int,
                    ),
                ) && final(ecs).viewsheds@[e] is Some && final(ecs).viewsheds@[e]->0.dirty,
            // Entities that are not monster actors are untouched.
            forall|e: int|
                0 <= e < old(ecs).n() && !spec_is_monster_actor(*old(ecs), e) ==> (#[trigger] final(ecs).positions@[e]) == old(ecs).positions@[e] && final(ecs).viewsheds@[e] == old(ecs).viewsheds@[e] && final(ecs).wants_to_melee@[e] == old(ecs).wants_to_melee@[e],
            final(ecs).alive@ == old(ecs).alive@,
            final(ecs).pending_delete@ == old(ecs).pending_delete@,
            final(ecs).renderables@ == old(ecs).renderables@,
            final(ecs).players@ == old(ecs).players@,
            final(ecs).monsters@ == old(ecs).monsters@,
            final(ecs).names@ == old(ecs).names@,
            final(ecs).blocks_tile@ == old(ecs).blocks_tile@,
            final(ecs).combat_stats@ == old(ecs).combat_stats@,
            final(ecs).suffer_damage@ == old(ecs).suffer_damage@,
            final(ecs).items@ == old(ecs).items@,
            final(ecs).potions@ == old(ecs).potions@,
            final(ecs).in_backpack@ == old(ecs).in_backpack@,
            final(ecs).wants_pickup@ == old(ecs).wants_pickup@,
            final(ecs).wants_drink@ == old(ecs).wants_drink@,
            final(ecs).wants_drop@ == old(ecs).wants_drop@,
            final(ecs).map == old(ecs).map,
            final(ecs).run_state == old(ecs).run_state,
            final(ecs).player_entity == old(ecs).player_entity,
            final(ecs).player_pos == old(ecs).player_pos,
            final(ecs).cursor == old(ecs).cursor,
            final(ecs).log.entries@ == old(ecs).log.entries@,
            final(ecs).rng.state == old(ecs).rng.state,
    {
        if !matches!(ecs.run_state, crate::state::RunState::MonsterTurn) {
            return ;
        }
        let n = ecs.alive.len();
        let player_pos = ecs.player_pos;
        let player_entity = ecs.player_entity;
        let mut e: usize = 0;
        while e < n
            invariant
                ecs.wf(),
                n == ecs.n(),
                e <= n,
                player_pos == old(ecs).player_pos,
                player_entity == old(ecs).player_entity,
                0 <= player_pos.x < 80,
                0 <= player_pos.y < 43,
                forall|d: int|
                    0 <= d < e && spec_is_monster_actor(*old(ecs), d) && spec_adjacent_to_player(*old(ecs), d) ==> (#[trigger] ecs.wants_to_melee@[d]) == Some(WantsToMelee { target: old(ecs).player_entity }),
                forall|d: int|
                    0 <= d < e && spec_is_monster_actor(*old(ecs), d) && spec_adjacent_to_player(*old(ecs), d) ==> (#[trigger] ecs.positions@[d]) == old(ecs).positions@[d],
                forall|d: int|
                    0 <= d < e && spec_is_monster_actor(*old(ecs), d) && spec_adjacent_to_player(*old(ecs), d) ==> (#[trigger] ecs.viewsheds@[d]) == old(ecs).viewsheds@[d],
                forall|d: int|
                    0 <= d < e && spec_is_monster_actor(*old(ecs), d) && !spec_adjacent_to_player(*old(ecs), d) ==> (#[trigger] ecs.wants_to_melee@[d]) == old(ecs).wants_to_melee@[d],
                forall|d: int|
                    0 <= d < e && spec_is_monster_actor(*old(ecs), d) && !spec_adjacent_to_player(*old(ecs), d) ==> (((#[trigger] ecs.positions@[d]) == old(ecs).positions@[d] && ecs.viewsheds@[d] == old(ecs).viewsheds@[d]) || (ecs.positions@[d] is Some && old(ecs).map.spec_step_valid(
                        spec_xy_idx(
                            old(ecs).positions@[d]->0.x as int,
                            old(ecs).positions@[d]->0.y as int,
                        ),
                        spec_xy_idx(
                            ecs.positions@[d]->0.x as int,
                            ecs.positions@[d]->0.y as int,
                        ),
                    ) && ecs.viewsheds@[d] is Some && ecs.viewsheds@[d]->0.dirty)),
                forall|d: int|
                    0 <= d < e && spec_is_monster_actor(*old(ecs), d) && !spec_adjacent_to_player(*old(ecs), d) && spec_sees_player(*old(ecs), d) && spec_walkable(old(ecs).map, spec_pos_idx(*old(ecs), d), spec_player_idx(*old(ecs))) ==> (#[trigger] ecs.positions@[d]) is Some && old(ecs).map.spec_step_valid(
                        spec_pos_idx(*old(ecs), d),
                        spec_xy_idx(
                            ecs.positions@[d]->0.x as int,
                            ecs.positions@[d]->0.y as int,
                        ),
                    ) && ecs.viewsheds@[d] is Some && ecs.viewsheds@[d]->0.dirty,
                forall|d: int|
                    0 <= d < n && !(0 <= d < e && spec_is_monster_actor(*old(ecs), d)) ==> (#[trigger] ecs.positions@[d]) == old(ecs).positions@[d],
                forall|d: int|
                    0 <= d < n && !(0 <= d < e && spec_is_monster_actor(*old(ecs), d)) ==> (#[trigger] ecs.viewsheds@[d]) == old(ecs).viewsheds@[d],
                forall|d: int|
                    0 <= d < n && !(0 <= d < e && spec_is_monster_actor(*old(ecs), d)) ==> (#[trigger] ecs.wants_to_melee@[d]) == old(ecs).wants_to_melee@[d],
                ecs.alive@ == old(ecs).alive@,
                ecs.pending_delete@ == old(ecs).pending_delete@,
                ecs.renderables@ == old(ecs).renderables@,
                ecs.players@ == old(ecs).players@,
                ecs.monsters@ == old(ecs).monsters@,
                ecs.names@ == old(ecs).names@,
                ecs.blocks_tile@ == old(ecs).blocks_tile@,
                ecs.combat_stats@ == old(ecs).combat_stats@,
                ecs.suffer_damage@ == old(ecs).suffer_damage@,
                ecs.items@ == old(ecs).items@,
                ecs.potions@ == old(ecs).potions@,
                ecs.in_backpack@ == old(ecs).in_backpack@,
                ecs.wants_pickup@ == old(ecs).wants_pickup@,
                ecs.wants_drink@ == old(ecs).wants_drink@,
                ecs.wants_drop@ == old(ecs).wants_drop@,
                ecs.map == old(ecs).map,
                ecs.run_state == old(ecs).run_state,
                ecs.player_entity == old(ecs).player_entity,
                ecs.player_pos == old(ecs).player_pos,
                ecs.cursor == old(ecs).cursor,
                ecs.log.entries@ == old(ecs).log.entries@,
                ecs.rng.state == old(ecs).rng.state,
            decreases n - e,
        {
            proof {
                assert(ecs.positions@[e as int] == old(ecs).positions@[e as int]);
                assert(ecs.viewsheds@[e as int] == old(ecs).viewsheds@[e as int]);
                assert(ecs.wants_to_melee@[e as int] == old(ecs).wants_to_melee@[e as int]);
            }
            let is_actor = ecs.alive[e] && ecs.monsters[e].is_some() && ecs.viewsheds[e].is_some()
                && ecs.positions[e].is_some();
            if is_actor {
                let pos = ecs.positions[e].unwrap();
                let dx = (pos.x as i64) - (player_pos.x as i64);
                let dy = (pos.y as i64) - (player_pos.y as i64);
                proof {
                    assert(-100 <= dx <= 100 && -100 <= dy <= 100);
                    assert(dx * dx <= 10000 && 0 <= dx * dx) by (nonlinear_arith)
                        requires
                            -100 <= dx <= 100,
                    ;
                    assert(dy * dy <= 10000 && 0 <= dy * dy) by (nonlinear_arith)
                        requires
                            -100 <= dy <= 100,
                    ;
                }
                let dist2 = dx * dx + dy * dy;
                proof {
                    assert(spec_adjacent_to_player(*old(ecs), e as int) == (dist2 <= 2));
                }
                if dist2 <= 2 {
                    ecs.wants_to_melee[e] = Some(WantsToMelee { target: player_entity });
                    proof {
                        assert(ecs.wants_to_melee@[e as int] == Some(
                            WantsToMelee { target: old(ecs).player_entity },
                        ));
                        assert(ecs.positions@[e as int] == old(ecs).positions@[e as int]);
                        assert(ecs.viewsheds@[e as int] == old(ecs).viewsheds@[e as int]);
                    }
                } else {
                    let mut sees_player = false;
                    match &ecs.viewsheds[e] {
                        Some(vs) => {
                            sees_player = contains_point(
                                &vs.visible_tiles,
                                Point { x: player_pos.x, y: player_pos.y },
                            );
                        },
                        None => {},
                    }
                    if sees_player {
                        let start = ecs.map.xy_idx(pos.x, pos.y);
                        let target = ecs.map.xy_idx(player_pos.x, player_pos.y);
                        proof {
                            // Not adjacent means not the same tile, so
                            // any walk to the player has a first step.
                            assert(!(dx == 0 && dy == 0)) by {
                                if dx == 0 && dy == 0 {
                                    assert(dx * dx + dy * dy == 0) by (nonlinear_arith)
                                        requires
                                            dx == 0 && dy == 0,
                                    ;
                                }
                            }
                            assert(start != target);
                        }
                        let path = a_star_search(start, target, &ecs.map);
                        if path.success && path.steps.len() > 1 {
                            let step = path.steps[1];
                            let (nx, ny) = ecs.map.idx_to_xy(step);
                            proof {
                                assert(old(ecs).map.spec_step_valid(
                                    path.steps@[0] as int,
                                    path.steps@[1] as int,
                                ));
                            }
                            ecs.positions[e] = Some(
                                crate::components::Position { x: nx, y: ny },
                            );
                            let mut taken: Option<Viewshed> = None;
                            let slot = &mut ecs.viewsheds[e];
                            std::mem::swap(&mut taken, slot);
                            let mut range: i32 = 0;
                            let mut vt: Vec<Point> = Vec::new();
                            match taken {
                                Some(vs) => {
                                    range = vs.range;
                                    vt = vs.visible_tiles;
                                },
                                None => {},
                            }
                            ecs.viewsheds[e] = Some(
                                Viewshed { visible_tiles: vt, range, dirty: true },
                            );
                        }
                    }
                }
            }
            e = e + 1;
        }
    }
}

} // verus!
