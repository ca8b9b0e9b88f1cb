use vstd::prelude::*;
use vstd::string::StringExecFns;
use crate::components::{Point, Viewshed, WantsToMelee, WantsToPickupItem};
use crate::state::{RunState, State};
use crate::world::World;

verus! {

/// The keys the simulation core understands; the input layer maps
/// whatever the terminal reports onto these.
#[derive(Clone, Copy, PartialEq, Eq, Structural, Debug)]
pub enum VirtualKeyCode {
    Left,
    Right,
    Up,
    Down,
    Numpad1,
    Numpad2,
    Numpad3,
    Numpad4,
    Numpad6,
    Numpad7,
    Numpad8,
    Numpad9,
    A,
    B,
    C,
    D,
    E,
    G,
    H,
    I,
    J,
    K,
    L,
    N,
    U,
    X,
    Y,
    Escape,
}

/// A key that asks for a move, cardinal or diagonal.
pub open spec fn spec_is_movement_key(k: VirtualKeyCode) -> bool {
    ||| k == VirtualKeyCode::Left
    ||| k == VirtualKeyCode::Right
    ||| k == VirtualKeyCode::Up
    ||| k == VirtualKeyCode::Down
    ||| k == VirtualKeyCode::Numpad1
    ||| k == VirtualKeyCode::Numpad2
    ||| k == VirtualKeyCode::Numpad3
    ||| k == VirtualKeyCode::Numpad4
    ||| k == VirtualKeyCode::Numpad6
    ||| k == VirtualKeyCode::Numpad7
    ||| k == VirtualKeyCode::Numpad8
    ||| k == VirtualKeyCode::Numpad9
    ||| k == VirtualKeyCode::H
    ||| k == VirtualKeyCode::J
    ||| k == VirtualKeyCode::K
    ||| k == VirtualKeyCode::L
    ||| k == VirtualKeyCode::Y
    ||| k == VirtualKeyCode::U
    ||| k == VirtualKeyCode::B
    ||| k == VirtualKeyCode::N
}

/// The horizontal step a movement key asks for.
pub open spec fn spec_key_dx(k: VirtualKeyCode) -> int {
    match k {
        VirtualKeyCode::Left | VirtualKeyCode::Numpad4 | VirtualKeyCode::H => -1,
        VirtualKeyCode::Right | VirtualKeyCode::Numpad6 | VirtualKeyCode::L => 1,
        VirtualKeyCode::Numpad9 | VirtualKeyCode::Y => 1,
        VirtualKeyCode::Numpad7 | VirtualKeyCode::U => -1,
        VirtualKeyCode::Numpad3 | VirtualKeyCode::N => 1,
        VirtualKeyCode::Numpad1 | VirtualKeyCode::B => -1,
        _ => 0,
    }
}

/// The vertical step a movement key asks for.
pub open spec fn spec_key_dy(k: VirtualKeyCode) -> int {
    match k {
        VirtualKeyCode::Up | VirtualKeyCode::Numpad8 | VirtualKeyCode::K => -1,
        VirtualKeyCode::Down | VirtualKeyCode::Numpad2 | VirtualKeyCode::J => 1,
        VirtualKeyCode::Numpad9 | VirtualKeyCode::Y => -1,
        VirtualKeyCode::Numpad7 | VirtualKeyCode::U => -1,
        VirtualKeyCode::Numpad3 | VirtualKeyCode::N => 1,
        VirtualKeyCode::Numpad1 | VirtualKeyCode::B => 1,
        _ => 0,
    }
}

/// An item entity lying on the player's tile, as the pickup scan sees
/// it.
pub open spec fn spec_item_at_player(w: World, i: int) -> bool {
    &&& 0 <= i < w.n()
    &&& w.alive@[i]
    &&& w.items@[i] is Some
    &&& w.positions@[i] is Some
    &&& w.positions@[i]->0.x == w.player_pos.x
    &&& w.positions@[i]->0.y == w.player_pos.y
}

/// The player entity is out of hit points; no further input may take a
/// turn.
pub open spec fn spec_player_dead(w: World) -> bool {
    &&& w.combat_stats@[w.player_entity as int] is Some
    &&& w.combat_stats@[w.player_entity as int]->0.hp < 1
}

/// The player entity as the movement code joins it: alive, tagged,
/// positioned, and carrying a viewshed. Well-formedness makes it
/// unique when it exists.
pub open spec fn spec_player_actor(w: World, e: int) -> bool {
    &&& 0 <= e < w.n()
    &&& w.alive@[e]
    &&& w.players@[e] is Some
    &&& w.positions@[e] is Some
    &&& w.viewsheds@[e] is Some
}

/// Tile `i`'s content list names a combatant: an entity with combat
/// stats, as the melee scan of a movement destination sees it.
pub open spec fn spec_combatant_listed(w: World, i: int) -> bool {
    exists|k: int|
        0 <= k < w.map.tile_content@[i]@.len() && (#[trigger] w.map.tile_content@[i]@[k]) < w.n()
            && w.combat_stats@[w.map.tile_content@[i]@[k] as int] is Some
}

/// The destination tile of the player's move.
pub open spec fn spec_move_dest(w: World, e: int, dx: int, dy: int) -> (int, int) {
    (w.positions@[e]->0.x + dx, w.positions@[e]->0.y + dy)
}

/// The move leaves the playable bounds: nothing happens.
pub open spec fn spec_move_oob(w: World, e: int, dx: int, dy: int) -> bool {
    !w.map.spec_in_bounds(spec_move_dest(w, e, dx, dy).0, spec_move_dest(w, e, dx, dy).1)
}

/// A combatant stands on the in-bounds destination: the move becomes
/// an attack.
pub open spec fn spec_move_attacks(w: World, e: int, dx: int, dy: int) -> bool {
    &&& !spec_move_oob(w, e, dx, dy)
    &&& spec_combatant_listed(
        w,
        crate::map::spec_xy_idx(spec_move_dest(w, e, dx, dy).0, spec_move_dest(w, e, dx, dy).1),
    )
}

/// The in-bounds destination is free of combatants and unblocked: the
/// player walks there.
pub open spec fn spec_move_steps(w: World, e: int, dx: int, dy: int) -> bool {
    &&& !spec_move_oob(w, e, dx, dy)
    &&& !spec_move_attacks(w, e, dx, dy)
    &&& !w.map.blocked@[crate::map::spec_xy_idx(
        spec_move_dest(w, e, dx, dy).0,
        spec_move_dest(w, e, dx, dy).1,
    )]
}

/// Everything a player move does, relating the world before and
/// after: a no-op world is untouched, an attack queues exactly one
/// melee intent against a combatant on the destination tile, a step
/// moves the player and its mirror by the delta and dirties the
/// viewshed, and nothing else changes either way.
pub open spec fn spec_move_outcome(pre: World, post: World, dx: int, dy: int, acted: bool) -> bool {
    &&& (!acted ==> post == pre)
    &&& (acted ==> exists|e: int|
        spec_player_actor(pre, e) && (spec_move_attacks(pre, e, dx, dy) || spec_move_steps(
            pre,
            e,
            dx,
            dy,
        )))
    &&& (forall|e: int|
        #![trigger pre.players@[e]]
        spec_player_actor(pre, e) && spec_move_oob(pre, e, dx, dy) ==> !acted)
    &&& (forall|e: int|
        #![trigger pre.players@[e]]
        spec_player_actor(pre, e) && !spec_move_oob(pre, e, dx, dy) && !spec_move_attacks(
            pre,
            e,
            dx,
            dy,
        ) && !spec_move_steps(pre, e, dx, dy) ==> !acted)
    &&& (forall|e: int|
        #![trigger pre.players@[e]]
        spec_player_actor(pre, e) && spec_move_attacks(pre, e, dx, dy) ==> acted && post.positions@
            == pre.positions@ && post.viewsheds@ == pre.viewsheds@ && post.player_pos
            == pre.player_pos && post.wants_to_melee@[e] is Some && {
            let t = post.wants_to_melee@[e]->0.target as int;
            let i = crate::map::spec_xy_idx(
                spec_move_dest(pre, e, dx, dy).0,
                spec_move_dest(pre, e, dx, dy).1,
            );
            &&& 0 <= t < pre.n()
            &&& pre.combat_stats@[t] is Some
            &&& exists|k: int|
                0 <= k < pre.map.tile_content@[i]@.len() && (#[trigger] pre.map.tile_content@[i]@[k])
                    == t
        } && (forall|d: int|
            0 <= d < pre.n() && d != e ==> (#[trigger] post.wants_to_melee@[d])
                == pre.wants_to_melee@[d]))
    &&& (forall|e: int|
        #![trigger pre.players@[e]]
        spec_player_actor(pre, e) && spec_move_steps(pre, e, dx, dy) ==> acted
            && post.wants_to_melee@ == pre.wants_to_melee@ && post.positions@[e] == Some(
            crate::components::Position {
                x: (pre.positions@[e]->0.x + dx) as i32,
                y: (pre.positions@[e]->0.y + dy) as i32,
            },
        ) && post.player_pos == (Point {
            x: (pre.positions@[e]->0.x + dx) as i32,
            y: (pre.positions@[e]->0.y + dy) as i32,
        }) && post.viewsheds@[e] is Some && post.viewsheds@[e]->0.dirty
            && post.viewsheds@[e]->0.range == pre.viewsheds@[e]->0.range
            && post.viewsheds@[e]->0.visible_tiles@ == pre.viewsheds@[e]->0.visible_tiles@ && (
        forall|d: int|
            0 <= d < pre.n() && d != e ==> (#[trigger] post.positions@[d]) == pre.positions@[d]
                && post.viewsheds@[d] == pre.viewsheds@[d]))
    &&& post.n() == pre.n()
    &&& post.alive@ == pre.alive@
    &&& post.pending_delete@ == pre.pending_delete@
    &&& post.players@ == pre.players@
    &&& post.monsters@ == pre.monsters@
    &&& post.names@ == pre.names@
    &&& post.blocks_tile@ == pre.blocks_tile@
    &&& post.combat_stats@ == pre.combat_stats@
    &&& post.suffer_damage@ == pre.suffer_damage@
    &&& post.items@ == pre.items@
    &&& post.potions@ == pre.potions@
    &&& post.in_backpack@ == pre.in_backpack@
    &&& post.wants_pickup@ == pre.wants_pickup@
    &&& post.wants_drink@ == pre.wants_drink@
    &&& post.wants_drop@ == pre.wants_drop@
    &&& post.renderables@ == pre.renderables@
    &&& post.map == pre.map
    &&& post.run_state == pre.run_state
    &&& post.player_entity == pre.player_entity
    &&& post.cursor == pre.cursor
    &&& post.log.entries@ == pre.log.entries@
    &&& post.rng.state == pre.rng.state
}

/// Move the player by the given delta, or queue a melee intent when a
/// combatant stands on the destination tile. Exactly three things can
/// happen: a free unblocked destination is walked onto (position,
/// player-position mirror and a dirty viewshed), a combatant there is
/// targeted with a melee intent, or nothing changes at all — out of
/// bounds and blocked moves are no-ops, and only the first two count
/// as an action.
pub fn try_move_player(delta_x: i32, delta_y: i32, ecs: &mut World) -> (acted: bool)
    requires
        old(ecs).wf(),
        -1 <= delta_x <= 1,
        -1 <= delta_y <= 1,
    ensures
        final(ecs).wf(),
        spec_move_outcome(*old(ecs), *final(ecs), delta_x as int, delta_y as int, acted),
{
    let n = ecs.alive.len();
    let mut acted = false;
    let mut e: usize = 0;
    while e < n
        invariant
            ecs.wf(),
            n == ecs.n(),
            e <= n,
            -1 <= delta_x <= 1,
            -1 <= delta_y <= 1,
            !acted ==> *ecs == *old(ecs),
            (forall|d: int| 0 <= d < e ==> !spec_player_actor(*old(ecs), d)) ==> (*ecs == *old(ecs)
                && !acted),
            forall|d: int|
                #![trigger old(ecs).players@[d]]
                0 <= d < e && spec_player_actor(*old(ecs), d) && (spec_move_oob(*old(ecs), d, delta_x as int, delta_y as int)
                    || (!spec_move_attacks(*old(ecs), d, delta_x as int, delta_y as int)
                    && !spec_move_steps(*old(ecs), d, delta_x as int, delta_y as int))) ==> (*ecs
                == *old(ecs) && !acted),
            forall|d: int|
                #![trigger old(ecs).players@[d]]
                0 <= d < e && spec_player_actor(*old(ecs), d) && spec_move_attacks(*old(ecs), d, delta_x as int, delta_y as int)
                    ==> acted && ecs.positions@ == old(ecs).positions@ && ecs.viewsheds@ == old(ecs).viewsheds@ && ecs.player_pos == old(ecs).player_pos
                    && ecs.wants_to_melee@[d] is Some && {
                    let t = ecs.wants_to_melee@[d]->0.target as int;
                    let i = crate::map::spec_xy_idx(
                        spec_move_dest(*old(ecs), d, delta_x as int, delta_y as int).0,
                        spec_move_dest(*old(ecs), d, delta_x as int, delta_y as int).1,
                    );
                    &&& 0 <= t < old(ecs).n()
                    &&& old(ecs).combat_stats@[t] is Some
                    &&& exists|k: int|
                        0 <= k < old(ecs).map.tile_content@[i]@.len() && (#[trigger] old(ecs).map.tile_content@[i]@[k]) == t
                } && (forall|d2: int|
                    0 <= d2 < old(ecs).n() && d2 != d ==> (#[trigger] ecs.wants_to_melee@[d2])
                        == old(ecs).wants_to_melee@[d2]),
            forall|d: int|
                #![trigger old(ecs).players@[d]]
                0 <= d < e && spec_player_actor(*old(ecs), d) && spec_move_steps(*old(ecs), d, delta_x as int, delta_y as int)
                    ==> acted && ecs.wants_to_melee@ == old(ecs).wants_to_melee@
                    && ecs.positions@[d] == Some(
                    crate::components::Position {
                        x: (old(ecs).positions@[d]->0.x + delta_x) as i32,
                        y: (old(ecs).positions@[d]->0.y + delta_y) as i32,
                    },
                ) && ecs.player_pos == (Point {
                    x: (old(ecs).positions@[d]->0.x + delta_x) as i32,
                    y: (old(ecs).positions@[d]->0.y + delta_y) as i32,
                }) && ecs.viewsheds@[d] is Some && ecs.viewsheds@[d]->0.dirty
                    && ecs.viewsheds@[d]->0.range == old(ecs).viewsheds@[d]->0.range
                    && ecs.viewsheds@[d]->0.visible_tiles@ == old(ecs).viewsheds@[d]->0.visible_tiles@ && (forall|d2: int|
                    0 <= d2 < old(ecs).n() && d2 != d ==> (#[trigger] ecs.positions@[d2]) == old(ecs).positions@[d2] && ecs.viewsheds@[d2] == old(ecs).viewsheds@[d2]),
            ecs.alive@ == old(ecs).alive@,
            ecs.pending_delete@ == old(ecs).pending_delete@,
            ecs.players@ == old(ecs).players@,
            ecs.monsters@ == old(ecs).monsters@,
            ecs.names@ == old(ecs).names@,
            ecs.blocks_tile@ == old(ecs).blocks_tile@,
            ecs.combat_stats@ == old(ecs).combat_stats@,
            ecs.suffer_damage@ == old(ecs).suffer_damage@,
            ecs.items@ == old(ecs).items@,
            ecs.potions@ == old(ecs).potions@,
            ecs.in_backpack@ == old(ecs).in_backpack@,
            ecs.wants_pickup@ == old(ecs).wants_pickup@,
            ecs.wants_drink@ == old(ecs).wants_drink@,
            ecs.wants_drop@ == old(ecs).wants_drop@,
            ecs.renderables@ == old(ecs).renderables@,
            ecs.map == old(ecs).map,
            ecs.run_state == old(ecs).run_state,
            ecs.player_entity == old(ecs).player_entity,
            ecs.cursor == old(ecs).cursor,
            ecs.log.entries@ == old(ecs).log.entries@,
            ecs.rng.state == old(ecs).rng.state,
        decreases n - e,
    {
        let is_player = ecs.alive[e] && ecs.players[e].is_some() && ecs.positions[e].is_some()
            && ecs.viewsheds[e].is_some();
        if is_player {
            proof {
                // Well-formedness makes the player unique, so no other
                // slot is an actor and the world still matches entry.
                assert forall|d: int|
                    0 <= d < old(ecs).n() && d != e implies !spec_player_actor(*old(ecs), d) by {
                    if old(ecs).players@[d] is Some {
                        assert(old(ecs).players@[e as int] is Some);
                    }
                }
                assert(*ecs == *old(ecs));
                assert(!acted);
            }
            let pos = ecs.positions[e].unwrap();
            // Make sure the move is in bounds
            if !ecs.map.is_in_bounds(pos.x + delta_x, pos.y + delta_y) {
                return acted;
            }
            let destination_idx = ecs.map.xy_idx(pos.x + delta_x, pos.y + delta_y);
            let mut attacked = false;
            let content_len = ecs.map.tile_content[destination_idx].len();
            let mut k: usize = 0;
            while k < content_len && !attacked
                invariant
                    ecs.wf(),
                    n == ecs.n(),
                    e < n,
                    spec_player_actor(*old(ecs), e as int),
                    -1 <= delta_x <= 1,
                    -1 <= delta_y <= 1,
                    old(ecs).positions@[e as int] is Some,
                    pos == old(ecs).positions@[e as int]->0,
                    destination_idx == crate::map::spec_xy_idx(
                        pos.x + delta_x,
                        pos.y + delta_y,
                    ),
                    destination_idx < 3440,
                    content_len == ecs.map.tile_content@[destination_idx as int]@.len(),
                    k <= content_len,
                    attacked == acted,
                    !attacked ==> *ecs == *old(ecs),
                    !attacked ==> forall|j: int|
                        0 <= j < k ==> !((#[trigger] old(ecs).map.tile_content@[destination_idx as int]@[j])
                            < old(ecs).n() && old(ecs).combat_stats@[old(ecs).map.tile_content@[destination_idx as int]@[j] as int] is Some),
                    attacked ==> acted && ecs.positions@ == old(ecs).positions@ && ecs.viewsheds@
                        == old(ecs).viewsheds@ && ecs.player_pos == old(ecs).player_pos
                        && ecs.wants_to_melee@[e as int] is Some && {
                        let t = ecs.wants_to_melee@[e as int]->0.target as int;
                        &&& 0 <= t < old(ecs).n()
                        &&& old(ecs).combat_stats@[t] is Some
                        &&& exists|j: int|
                            0 <= j < old(ecs).map.tile_content@[destination_idx as int]@.len() && (
                            #[trigger] old(ecs).map.tile_content@[destination_idx as int]@[j]) == t
                    } && (forall|d2: int|
                        0 <= d2 < old(ecs).n() && d2 != e ==> (#[trigger] ecs.wants_to_melee@[d2])
                            == old(ecs).wants_to_melee@[d2]),
                    ecs.alive@ == old(ecs).alive@,
                    ecs.pending_delete@ == old(ecs).pending_delete@,
                    ecs.players@ == old(ecs).players@,
                    ecs.monsters@ == old(ecs).monsters@,
                    ecs.names@ == old(ecs).names@,
                    ecs.blocks_tile@ == old(ecs).blocks_tile@,
                    ecs.combat_stats@ == old(ecs).combat_stats@,
                    ecs.suffer_damage@ == old(ecs).suffer_damage@,
                    ecs.items@ == old(ecs).items@,
                    ecs.potions@ == old(ecs).potions@,
                    ecs.in_backpack@ == old(ecs).in_backpack@,
                    ecs.wants_pickup@ == old(ecs).wants_pickup@,
                    ecs.wants_drink@ == old(ecs).wants_drink@,
                    ecs.wants_drop@ == old(ecs).wants_drop@,
                    ecs.renderables@ == old(ecs).renderables@,
                    ecs.map == old(ecs).map,
                    ecs.run_state == old(ecs).run_state,
                    ecs.player_entity == old(ecs).player_entity,
                    ecs.cursor == old(ecs).cursor,
                    ecs.log.entries@ == old(ecs).log.entries@,
                    ecs.rng.state == old(ecs).rng.state,
                decreases content_len - k,
            {
                let potential_target = ecs.map.tile_content[destination_idx][k];
                if potential_target < n && ecs.combat_stats[potential_target].is_some() {
                    ecs.wants_to_melee[e] = Some(WantsToMelee { target: potential_target });
                    proof {
                        assert(old(ecs).map.tile_content@[destination_idx as int]@[k as int]
                            == potential_target);
                    }
                    attacked = true;
                    acted = true;
                }
                k = k + 1;
            }
            if attacked {
                proof {
                    assert(spec_move_attacks(*old(ecs), e as int, delta_x as int, delta_y as int));
                }
                return acted;
            }
            proof {
                assert(!spec_combatant_listed(*old(ecs), destination_idx as int));
            }
            let blocked_dest = ecs.map.blocked[destination_idx];
            proof {
                assert(!spec_move_oob(*old(ecs), e as int, delta_x as int, delta_y as int));
                assert(!spec_move_attacks(*old(ecs), e as int, delta_x as int, delta_y as int));
                assert(blocked_dest == old(ecs).map.blocked@[destination_idx as int]);
                assert(blocked_dest == !spec_move_steps(
                    *old(ecs),
                    e as int,
                    delta_x as int,
                    delta_y as int,
                ));
            }
            if !blocked_dest {
                let new_x = if pos.x + delta_x > 79 {
                    79
                } else if pos.x + delta_x < 0 {
                    0
                } else {
                    pos.x + delta_x
                };
                let new_y = if pos.y + delta_y > 49 {
                    49
                } else if pos.y + delta_y < 0 {
                    0
                } else {
                    pos.y + delta_y
                };
                ecs.positions[e] = Some(crate::components::Position { x: new_x, y: new_y });
                ecs.player_pos = Point { x: new_x, y: new_y };
                let mut taken: Option<Viewshed> = None;
                let slot = &mut ecs.viewsheds[e];
                std::mem::swap(&mut taken, slot);
                let mut range: i32 = 0;
                let mut vt: Vec<Point> = Vec::new();
                match taken {
                    Some(vs) => {
                        range = vs.range;
                        vt = vs.visible_tiles;
                    },
                    None => {},
                }
                ecs.viewsheds[e] = Some(Viewshed { visible_tiles: vt, range, dirty: true });
                acted = true;
                proof {
                    assert(spec_move_steps(*old(ecs), e as int, delta_x as int, delta_y as int));
                    assert(ecs.positions@[e as int] == Some(
                        crate::components::Position {
                            x: (old(ecs).positions@[e as int]->0.x + delta_x) as i32,
                            y: (old(ecs).positions@[e as int]->0.y + delta_y) as i32,
                        },
                    ));
                    assert(ecs.wants_to_melee@ == old(ecs).wants_to_melee@);
                    assert(ecs.player_pos == (Point {
                        x: (old(ecs).positions@[e as int]->0.x + delta_x) as i32,
                        y: (old(ecs).positions@[e as int]->0.y + delta_y) as i32,
                    }));
                    assert(ecs.viewsheds@[e as int] is Some && ecs.viewsheds@[e as int]->0.dirty);
                    assert(ecs.viewsheds@[e as int]->0.range == old(ecs).viewsheds@[e as int]->0.range);
                    assert(ecs.viewsheds@[e as int]->0.visible_tiles@ == old(ecs).viewsheds@[e as int]->0.visible_tiles@);
                    assert(forall|d2: int|
                        0 <= d2 < old(ecs).n() && d2 != e ==> (#[trigger] ecs.positions@[d2])
                            == old(ecs).positions@[d2] && ecs.viewsheds@[d2] == old(ecs).viewsheds@[d2]);
                    assert forall|d: int|
                        #![trigger old(ecs).players@[d]]
                        0 <= d < e + 1 && spec_player_actor(*old(ecs), d) && spec_move_steps(
                            *old(ecs),
                            d,
                            delta_x as int,
                            delta_y as int,
                        ) implies acted && ecs.wants_to_melee@ == old(ecs).wants_to_melee@
                        && ecs.positions@[d] == Some(
                        crate::components::Position {
                            x: (old(ecs).positions@[d]->0.x + delta_x) as i32,
                            y: (old(ecs).positions@[d]->0.y + delta_y) as i32,
                        },
                    ) && ecs.player_pos == (Point {
                        x: (old(ecs).positions@[d]->0.x + delta_x) as i32,
                        y: (old(ecs).positions@[d]->0.y + delta_y) as i32,
                    }) && ecs.viewsheds@[d] is Some && ecs.viewsheds@[d]->0.dirty
                        && ecs.viewsheds@[d]->0.range == old(ecs).viewsheds@[d]->0.range
                        && ecs.viewsheds@[d]->0.visible_tiles@ == old(ecs).viewsheds@[d]->0.visible_tiles@ && (forall|d2: int|
                        0 <= d2 < old(ecs).n() && d2 != d ==> (#[trigger] ecs.positions@[d2])
                            == old(ecs).positions@[d2] && ecs.viewsheds@[d2] == old(ecs).viewsheds@[d2]) by {
                        assert(d == e as int);
                    }
                }
            } else {
                proof {
                    assert(*ecs == *old(ecs));
                    assert(!acted);
                }
            }
        }
        e = e + 1;
    }
    proof {
        if acted {
            assert(!(forall|d: int| 0 <= d < e ==> !spec_player_actor(*old(ecs), d)));
            let d0 = choose|d: int| 0 <= d < e && spec_player_actor(*old(ecs), d);
            assert(spec_move_attacks(*old(ecs), d0, delta_x as int, delta_y as int)
                || spec_move_steps(*old(ecs), d0, delta_x as int, delta_y as int));
        }
    }
    acted
}

/// Move the examine cursor by the given delta, staying inside the
/// playable bounds; out-of-bounds moves do nothing.
pub fn try_move_cursor(delta_x: i32, delta_y: i32, ecs: &mut World)
    requires
        old(ecs).wf(),
        -1 <= delta_x <= 1,
        -1 <= delta_y <= 1,
    ensures
        final(ecs).wf(),
        old(ecs).map.spec_in_bounds(
            old(ecs).cursor.x + delta_x,
            old(ecs).cursor.y + delta_y,
        ) ==> final(ecs).cursor.x == old(ecs).cursor.x + delta_x && final(ecs).cursor.y == old(ecs).cursor.y + delta_y,
        !old(ecs).map.spec_in_bounds(old(ecs).cursor.x + delta_x, old(ecs).cursor.y + delta_y)
            ==> *final(ecs) == *old(ecs),
        *final(ecs) == (World { cursor: final(ecs).cursor, ..*old(ecs) }),
{
    let cx = ecs.cursor.x;
    let cy = ecs.cursor.y;
    if cx < -100 || cx > 100 || cy < -100 || cy > 100 {
        // A cursor far off the grid cannot move back in one step.
        proof {
            assert(!ecs.map.spec_in_bounds(cx + delta_x, cy + delta_y));
        }
        return ;
    }
    if !ecs.map.is_in_bounds(cx + delta_x, cy + delta_y) {
        return ;
    }
    ecs.cursor = crate::components::Cursor { x: cx + delta_x, y: cy + delta_y };
}

/// Handles switching between examining state.
pub fn handle_examine(ecs: &mut World) -> (r: RunState)
    requires
        old(ecs).wf(),
    ensures
        final(ecs).wf(),
        old(ecs).run_state == RunState::AwaitingInput ==> r == RunState::Examining && final(ecs).cursor.x == old(ecs).player_pos.x && final(ecs).cursor.y == old(ecs).player_pos.y,
        old(ecs).run_state != RunState::AwaitingInput ==> r == RunState::AwaitingInput && *final(ecs) == *old(ecs),
        *final(ecs) == (World { cursor: final(ecs).cursor, ..*old(ecs) }),
{
    if matches!(ecs.run_state, RunState::AwaitingInput) {
        // Put the cursor on top of the player
        let p = ecs.player_pos;
        ecs.cursor = crate::components::Cursor { x: p.x, y: p.y };
        RunState::Examining
    } else {
        RunState::AwaitingInput
    }
}

/// In examine mode a movement key moves the cursor; otherwise it moves
/// the player. Returns whether a player action was taken.
fn handle_movement(x: i32, y: i32, ecs: &mut World) -> (acted: bool)
    requires
        old(ecs).wf(),
        -1 <= x <= 1,
        -1 <= y <= 1,
    ensures
        final(ecs).wf(),
        old(ecs).run_state != RunState::Examining ==> spec_move_outcome(
            *old(ecs),
            *final(ecs),
            x as int,
            y as int,
            acted,
        ),
        old(ecs).run_state == RunState::Examining ==> !acted && *final(ecs) == (World {
            cursor: final(ecs).cursor,
            ..*old(ecs)
        }) && (old(ecs).map.spec_in_bounds(old(ecs).cursor.x + x, old(ecs).cursor.y + y) ==> final(ecs).cursor.x == old(ecs).cursor.x + x && final(ecs).cursor.y == old(ecs).cursor.y + y) && (
        !old(ecs).map.spec_in_bounds(old(ecs).cursor.x + x, old(ecs).cursor.y + y) ==> *final(ecs)
            == *old(ecs)),
{
    if matches!(ecs.run_state, RunState::Examining) {
        try_move_cursor(x, y, ecs);
        false
    } else {
        try_move_player(x, y, ecs)
    }
}

/// Queue a pickup intent for an item lying on the player's tile, or
/// log that there is nothing here. Only a successful pickup takes the
/// turn.
fn get_item(ecs: &mut World) -> (r: RunState)
    requires
        old(ecs).wf(),
        old(ecs).has_player(),
    ensures
        final(ecs).wf(),
        final(ecs).n() == old(ecs).n(),
        // The turn advances exactly when an item lies on the player's
        // tile; then a pickup intent naming such an item is queued on
        // the player and the log is untouched.
        (r == RunState::MonsterTurn) <==> (exists|i: int| spec_item_at_player(*old(ecs), i)),
        r == RunState::MonsterTurn || r == RunState::AwaitingInput,
        r == RunState::MonsterTurn ==> final(ecs).wants_pickup@[old(ecs).player_entity as int] is Some
            && {
            let wp = final(ecs).wants_pickup@[old(ecs).player_entity as int]->0;
            wp.collected_by == old(ecs).player_entity && spec_item_at_player(
                *old(ecs),
                wp.item as int,
            )
        } && (forall|d: int|
            0 <= d < old(ecs).n() && d != old(ecs).player_entity ==> (#[trigger] final(ecs).wants_pickup@[d]) == old(ecs).wants_pickup@[d]) && final(ecs).log.entries@ == old(ecs).log.entries@,
        // With nothing to take, the log gains exactly the refusal line
        // and no intent is queued.
        r == RunState::AwaitingInput ==> final(ecs).wants_pickup@ == old(ecs).wants_pickup@
            && final(ecs).log.entries@.len() == old(ecs).log.entries@.len() + 1 && (forall|j: int|
            0 <= j < old(ecs).log.entries@.len() ==> (#[trigger] final(ecs).log.entries@[j]) == old(ecs).log.entries@[j]) && final(ecs).log.entries@[old(ecs).log.entries@.len() as int]@
            == "There is nothing here to pick up."@,
        final(ecs).alive@ == old(ecs).alive@,
        final(ecs).players@ == old(ecs).players@,
        final(ecs).combat_stats@ == old(ecs).combat_stats@,
        final(ecs).pending_delete@ == old(ecs).pending_delete@,
        final(ecs).positions@ == old(ecs).positions@,
        final(ecs).viewsheds@ == old(ecs).viewsheds@,
        final(ecs).monsters@ == old(ecs).monsters@,
        final(ecs).names@ == old(ecs).names@,
        final(ecs).blocks_tile@ == old(ecs).blocks_tile@,
        final(ecs).suffer_damage@ == old(ecs).suffer_damage@,
        final(ecs).items@ == old(ecs).items@,
        final(ecs).potions@ == old(ecs).potions@,
        final(ecs).in_backpack@ == old(ecs).in_backpack@,
        final(ecs).wants_to_melee@ == old(ecs).wants_to_melee@,
        final(ecs).wants_drink@ == old(ecs).wants_drink@,
        final(ecs).wants_drop@ == old(ecs).wants_drop@,
        final(ecs).renderables@ == old(ecs).renderables@,
        final(ecs).map == old(ecs).map,
        final(ecs).run_state == old(ecs).run_state,
        final(ecs).player_entity == old(ecs).player_entity,
        final(ecs).player_pos == old(ecs).player_pos,
        final(ecs).cursor == old(ecs).cursor,
        final(ecs).rng.state == old(ecs).rng.state,
{
    let n = ecs.alive.len();
    let px = ecs.player_pos.x;
    let py = ecs.player_pos.y;
    let mut target_item: usize = n;
    let mut e: usize = 0;
    while e < n
        invariant
            ecs.wf(),
            *ecs == *old(ecs),
            n == ecs.n(),
            e <= n,
            px == old(ecs).player_pos.x,
            py == old(ecs).player_pos.y,
            target_item <= n,
            target_item == n ==> forall|j: int| 0 <= j < e ==> !spec_item_at_player(*old(ecs), j),
            target_item < n ==> spec_item_at_player(*old(ecs), target_item as int),
        ensures
            *ecs == *old(ecs),
            n == ecs.n(),
            target_item <= n,
            target_item == n ==> forall|j: int| 0 <= j < n ==> !spec_item_at_player(*old(ecs), j),
            target_item < n ==> spec_item_at_player(*old(ecs), target_item as int),
        decreases n - e,
    {
        if ecs.alive[e] && ecs.items[e].is_some() && ecs.positions[e].is_some() {
            let p = ecs.positions[e].unwrap();
            if p.x == px && p.y == py {
                target_item = e;
                break ;
            }
        }
        e = e + 1;
    }
    if target_item == n {
        proof {
            assert(forall|j: int| 0 <= j < n ==> !spec_item_at_player(*old(ecs), j));
        }
        let msg = String::from_str("There is nothing here to pick up.");
        ecs.log.entries.push(msg);
        RunState::AwaitingInput
    } else {
        let pe = ecs.player_entity;
        ecs.wants_pickup[pe] = Some(WantsToPickupItem { collected_by: pe, item: target_item });
        proof {
            assert(spec_item_at_player(*old(ecs), target_item as int));
        }
        RunState::MonsterTurn
    }
}

/// Handle the player's input for this tick, carry out the appropriate
/// action, and return the resulting run state. A key that takes a turn
/// yields the monster turn; a no-op key or a mode toggle does not. A
/// dead player's keys do nothing at all.
pub fn player_input(gs: &mut State, key: Option<VirtualKeyCode>) -> (r: RunState)
    requires
        old(gs).ecs.wf(),
        old(gs).ecs.has_player(),
    ensures
        final(gs).ecs.wf(),
        final(gs).ecs.has_player(),
        final(gs).ecs.n() == old(gs).ecs.n(),
        // No key, or a dead player: nothing happens at all.
        key is None ==> *final(gs) == *old(gs) && r == old(gs).ecs.run_state,
        spec_player_dead(old(gs).ecs) ==> *final(gs) == *old(gs) && r == old(gs).ecs.run_state,
        final(gs).ecs.run_state == old(gs).ecs.run_state,
        final(gs).ecs.map == old(gs).ecs.map,
        final(gs).ecs.pending_delete@ == old(gs).ecs.pending_delete@,
        final(gs).ecs.alive@ == old(gs).ecs.alive@,
        final(gs).ecs.players@ == old(gs).ecs.players@,
        final(gs).ecs.combat_stats@ == old(gs).ecs.combat_stats@,
        final(gs).ecs.player_entity == old(gs).ecs.player_entity,
        final(gs).ecs.rng.state == old(gs).ecs.rng.state,
        final(gs).ecs.in_backpack@ == old(gs).ecs.in_backpack@,
        forall|d: int|
            0 <= d < old(gs).ecs.n() && old(gs).ecs.players@[d] is None ==> (#[trigger] final(gs).ecs.positions@[d]) == old(gs).ecs.positions@[d],
        // What each key does for a live player.
        (match key {
            None => true,
            Some(k) => !spec_player_dead(old(gs).ecs) ==> {
                // A movement key outside examine mode moves or attacks
                // exactly as the move outcome says; the monster turn is
                // taken exactly when the move acted.
                &&& (spec_is_movement_key(k) && old(gs).ecs.run_state != RunState::Examining
                    ==> r == RunState::MonsterTurn || r == old(gs).ecs.run_state)
                &&& (spec_is_movement_key(k) && old(gs).ecs.run_state != RunState::Examining && old(gs).ecs.run_state != RunState::MonsterTurn ==> spec_move_outcome(
                    old(gs).ecs,
                    final(gs).ecs,
                    spec_key_dx(k),
                    spec_key_dy(k),
                    (r == RunState::MonsterTurn),
                ))
                // In examine mode a movement key moves the cursor and
                // keeps examining.
                &&& (spec_is_movement_key(k) && old(gs).ecs.run_state == RunState::Examining ==> r
                    == RunState::Examining && final(gs).ecs == (World {
                    cursor: final(gs).ecs.cursor,
                    ..old(gs).ecs
                }) && (old(gs).ecs.map.spec_in_bounds(
                    old(gs).ecs.cursor.x + spec_key_dx(k),
                    old(gs).ecs.cursor.y + spec_key_dy(k),
                ) ==> final(gs).ecs.cursor.x == old(gs).ecs.cursor.x + spec_key_dx(k) && final(gs).ecs.cursor.y == old(gs).ecs.cursor.y + spec_key_dy(k)))
                // X toggles examine mode, snapping the cursor onto the
                // player on the way in.
                &&& (k == VirtualKeyCode::X && old(gs).ecs.run_state == RunState::AwaitingInput
                    ==> r == RunState::Examining && final(gs).ecs.cursor.x == old(gs).ecs.player_pos.x && final(gs).ecs.cursor.y == old(gs).ecs.player_pos.y && final(gs).ecs == (World { cursor: final(gs).ecs.cursor, ..old(gs).ecs }))
                &&& (k == VirtualKeyCode::X && old(gs).ecs.run_state != RunState::AwaitingInput
                    ==> r == RunState::AwaitingInput && *final(gs) == *old(gs))
                // G takes the turn exactly when an item lies at the
                // player's feet, queueing the pickup intent; otherwise
                // it logs the refusal and keeps waiting.
                &&& (k == VirtualKeyCode::G ==> ((r == RunState::MonsterTurn) <==> (exists|i: int|
                    spec_item_at_player(old(gs).ecs, i))) && (r == RunState::MonsterTurn || r
                    == RunState::AwaitingInput))
                &&& (k == VirtualKeyCode::G && r == RunState::MonsterTurn ==> final(gs).ecs.wants_pickup@[old(gs).ecs.player_entity as int] is Some && {
                    let wp = final(gs).ecs.wants_pickup@[old(gs).ecs.player_entity as int]->0;
                    wp.collected_by == old(gs).ecs.player_entity && spec_item_at_player(
                        old(gs).ecs,
                        wp.item as int,
                    )
                } && final(gs).ecs.log.entries@ == old(gs).ecs.log.entries@ && final(gs).ecs.positions@ == old(gs).ecs.positions@ && final(gs).ecs.in_backpack@ == old(gs).ecs.in_backpack@)
                &&& (k == VirtualKeyCode::G && r == RunState::AwaitingInput ==> final(gs).ecs.wants_pickup@ == old(gs).ecs.wants_pickup@ && final(gs).ecs.log.entries@.len() == old(gs).ecs.log.entries@.len() + 1 && final(gs).ecs.log.entries@[old(gs).ecs.log.entries@.len() as int]@
                    == "There is nothing here to pick up."@)
                // I and D open the menus and touch nothing.
                &&& (k == VirtualKeyCode::I ==> r == RunState::ShowInventory && *final(gs) == *old(gs))
                &&& (k == VirtualKeyCode::D ==> r == RunState::ShowDropItem && *final(gs) == *old(gs))
                // Any other key keeps waiting and changes nothing.
                &&& (!spec_is_movement_key(k) && k != VirtualKeyCode::X && k != VirtualKeyCode::G
                    && k != VirtualKeyCode::I && k != VirtualKeyCode::D ==> r == old(gs).ecs.run_state && *final(gs) == *old(gs))
            },
        }),
{
    let state = gs.ecs.run_state;
    let pe = gs.ecs.player_entity;
    if gs.ecs.combat_stats[pe].is_some() {
        let stats = gs.ecs.combat_stats[pe].unwrap();
        if stats.hp < 1 {
            // The player is dead: input never takes a turn again.
            return state;
        }
    }
    let acted: bool;
    match key {
        None => {
            return state;
        },
        Some(k) => {
            match k {
                // Cardinal directions
                VirtualKeyCode::Left | VirtualKeyCode::Numpad4 | VirtualKeyCode::H => {
                    acted = handle_movement(-1, 0, &mut gs.ecs);
                },
                VirtualKeyCode::Right | VirtualKeyCode::Numpad6 | VirtualKeyCode::L => {
                    acted = handle_movement(1, 0, &mut gs.ecs);
                },
                VirtualKeyCode::Up | VirtualKeyCode::Numpad8 | VirtualKeyCode::K => {
                    acted = handle_movement(0, -1, &mut gs.ecs);
                },
                VirtualKeyCode::Down | VirtualKeyCode::Numpad2 | VirtualKeyCode::J => {
                    acted = handle_movement(0, 1, &mut gs.ecs);
                },
                // Diagonals
                VirtualKeyCode::Numpad9 | VirtualKeyCode::Y => {
                    acted = handle_movement(1, -1, &mut gs.ecs);
                },
                VirtualKeyCode::Numpad7 | VirtualKeyCode::U => {
                    acted = handle_movement(-1, -1, &mut gs.ecs);
                },
                VirtualKeyCode::Numpad3 | VirtualKeyCode::N => {
                    acted = handle_movement(1, 1, &mut gs.ecs);
                },
                VirtualKeyCode::Numpad1 | VirtualKeyCode::B => {
                    acted = handle_movement(-1, 1, &mut gs.ecs);
                },
                // Handle examining
                VirtualKeyCode::X => {
                    return handle_examine(&mut gs.ecs);
                },
                // Handle pickup
                VirtualKeyCode::G => {
                    return get_item(&mut gs.ecs);
                },
                // Handle inventory
                VirtualKeyCode::I => {
                    return RunState::ShowInventory;
                },
                // Handle dropping
                VirtualKeyCode::D => {
                    return RunState::ShowDropItem;
                },
                // No meaningful key is being pressed; keep waiting.
                _ => {
                    return state;
                },
            }
        },
    }
    if matches!(state, RunState::Examining) {
        state
    } else {
        if acted {
            RunState::MonsterTurn
        } else {
            state
        }
    }
}

} // verus!
