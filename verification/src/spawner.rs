use vstd::prelude::*;
use vstd::string::StringExecFns;
use crate::components::{
    BlocksTile, CombatStats, Item, Monster, Name, Player, Position, Potion, Renderable, Rgb,
    Viewshed,
};
use crate::rect::Rect;
use crate::map::spec_room_in_bounds;
use crate::world::World;

verus! {

const MAX_MONSTERS: i32 = 4;

/// A freshly spawned monster: a blocking, named, seeing combatant with
/// the standard monster stats, standing inside the given room.
pub open spec fn spec_spawned_monster(w: World, e: int, room: Rect) -> bool {
    &&& w.monsters@[e] is Some
    &&& w.positions@[e] is Some
    &&& room.x1 + 1 <= w.positions@[e]->0.x <= room.x2
    &&& room.y1 + 1 <= w.positions@[e]->0.y <= room.y2
    &&& w.viewsheds@[e] is Some
    &&& w.combat_stats@[e] == Some(CombatStats { max_hp: 9, hp: 9, defence: 1, power: 4 })
    &&& w.names@[e] is Some
    &&& w.blocks_tile@[e] is Some
    &&& w.items@[e] is None
    &&& w.potions@[e] is None
}

/// A freshly spawned health potion: a named item with the standard
/// heal amount, lying inside the given room.
pub open spec fn spec_spawned_potion(w: World, e: int, room: Rect) -> bool {
    &&& w.items@[e] is Some
    &&& w.potions@[e] == Some(Potion { heal_amount: 8 })
    &&& w.positions@[e] is Some
    &&& room.x1 + 1 <= w.positions@[e]->0.x <= room.x2
    &&& room.y1 + 1 <= w.positions@[e]->0.y <= room.y2
    &&& w.names@[e] is Some
    &&& w.monsters@[e] is None
    &&& w.combat_stats@[e] is None
}

/// The columns one spawn call never touches, and the resources other
/// than the random source.
pub open spec fn spawn_keeps_existing(w: World, w0: World) -> bool {
    &&& w.n() >= w0.n()
    &&& forall|e: int| 0 <= e < w0.n() ==> (#[trigger] w.alive@[e]) == w0.alive@[e]
    &&& forall|e: int| 0 <= e < w0.n() ==> (#[trigger] w.players@[e]) == w0.players@[e]
    &&& forall|e: int| 0 <= e < w0.n() ==> (#[trigger] w.positions@[e]) == w0.positions@[e]
    &&& forall|e: int| 0 <= e < w0.n() ==> (#[trigger] w.combat_stats@[e]) == w0.combat_stats@[e]
    &&& forall|e: int| 0 <= e < w0.n() ==> (#[trigger] w.pending_delete@[e]) == w0.pending_delete@[e]
    &&& forall|e: int| w0.n() <= e < w.n() ==> !(#[trigger] w.pending_delete@[e])
    &&& forall|e: int| 0 <= e < w0.n() ==> (#[trigger] w.potions@[e]) == w0.potions@[e]
    &&& forall|e: int| 0 <= e < w0.n() ==> (#[trigger] w.monsters@[e]) == w0.monsters@[e]
    &&& forall|e: int| 0 <= e < w0.n() ==> (#[trigger] w.viewsheds@[e]) == w0.viewsheds@[e]
    &&& forall|e: int| 0 <= e < w0.n() ==> (#[trigger] w.names@[e]) == w0.names@[e]
    &&& forall|e: int| 0 <= e < w0.n() ==> (#[trigger] w.blocks_tile@[e]) == w0.blocks_tile@[e]
    &&& forall|e: int| 0 <= e < w0.n() ==> (#[trigger] w.items@[e]) == w0.items@[e]
    &&& w.map == w0.map
    &&& w.run_state == w0.run_state
    &&& w.player_entity == w0.player_entity
    &&& w.player_pos == w0.player_pos
    &&& w.cursor == w0.cursor
    &&& w.log.entries@ == w0.log.entries@
}

/// Create the player entity at the given tile, with its glyph, its
/// viewshed, and the standard starting stats.
pub fn player(ecs: &mut World, player_x: i32, player_y: i32) -> (e: usize)
    requires
        old(ecs).wf(),
        old(ecs).n() < 900000,
        0 <= player_x < 80,
        0 <= player_y < 43,
        forall|d: int| 0 <= d < old(ecs).n() ==> (#[trigger] old(ecs).players@[d]) is None,
    ensures
        final(ecs).wf(),
        e == old(ecs).n(),
        final(ecs).n() == old(ecs).n() + 1,
        final(ecs).alive@[e as int],
        final(ecs).players@[e as int] is Some,
        final(ecs).positions@[e as int] == Some(Position { x: player_x, y: player_y }),
        final(ecs).combat_stats@[e as int] == Some(
            CombatStats { max_hp: 33, hp: 33, defence: 1, power: 4 },
        ),
        final(ecs).viewsheds@[e as int] is Some,
        final(ecs).potions@[e as int] is None,
        final(ecs).pending_delete@[e as int] == false,
        spawn_keeps_existing(*final(ecs), *old(ecs)),
        final(ecs).rng.state == old(ecs).rng.state,
{
    let e = ecs.create_entity();
    ecs.positions[e] = Some(Position { x: player_x, y: player_y });
    ecs.renderables[e] = Some(
        Renderable {
            glyph: 64,  // '@'
            fg: Rgb { r: 255, g: 255, b: 0 },
            bg: Rgb { r: 0, g: 0, b: 0 },
        },
    );
    ecs.players[e] = Some(Player {  });
    ecs.names[e] = Some(Name { name: String::from_str("Player") });
    ecs.viewsheds[e] = Some(
        crate::components::Viewshed { visible_tiles: Vec::new(), range: 8, dirty: true },
    );
    ecs.combat_stats[e] = Some(CombatStats { max_hp: 33, hp: 33, defence: 1, power: 4 });
    e
}

/// Create a health potion item on the ground.
fn health_potion(ecs: &mut World, x: i32, y: i32)
    requires
        old(ecs).wf(),
        old(ecs).n() < 900000,
        0 <= x < 80,
        0 <= y < 43,
    ensures
        final(ecs).wf(),
        final(ecs).n() == old(ecs).n() + 1,
        final(ecs).items@[old(ecs).n()] is Some,
        final(ecs).potions@[old(ecs).n()] == Some(Potion { heal_amount: 8 }),
        final(ecs).positions@[old(ecs).n()] == Some(Position { x, y }),
        final(ecs).names@[old(ecs).n()] is Some,
        final(ecs).monsters@[old(ecs).n()] is None,
        final(ecs).combat_stats@[old(ecs).n()] is None,
        spawn_keeps_existing(*final(ecs), *old(ecs)),
        final(ecs).rng.state == old(ecs).rng.state,
{
    let e = ecs.create_entity();
    ecs.positions[e] = Some(Position { x, y });
    ecs.renderables[e] = Some(
        Renderable {
            glyph: 105,  // 'i'
            fg: Rgb { r: 255, g: 0, b: 255 },
            bg: Rgb { r: 0, g: 0, b: 0 },
        },
    );
    ecs.names[e] = Some(Name { name: String::from_str("Health Potion") });
    ecs.items[e] = Some(Item {  });
    ecs.potions[e] = Some(Potion { heal_amount: 8 });
}

/// Create one monster: a blocking, named combatant with a viewshed.
fn monster(ecs: &mut World, x: i32, y: i32, glyph: u8, name: &str)
    requires
        old(ecs).wf(),
        old(ecs).n() < 900000,
        0 <= x < 80,
        0 <= y < 43,
    ensures
        final(ecs).wf(),
        final(ecs).n() == old(ecs).n() + 1,
        final(ecs).monsters@[old(ecs).n()] is Some,
        final(ecs).positions@[old(ecs).n()] == Some(Position { x, y }),
        final(ecs).viewsheds@[old(ecs).n()] is Some,
        final(ecs).combat_stats@[old(ecs).n()] == Some(
            CombatStats { max_hp: 9, hp: 9, defence: 1, power: 4 },
        ),
        final(ecs).names@[old(ecs).n()] is Some,
        final(ecs).blocks_tile@[old(ecs).n()] is Some,
        final(ecs).items@[old(ecs).n()] is None,
        final(ecs).potions@[old(ecs).n()] is None,
        spawn_keeps_existing(*final(ecs), *old(ecs)),
        final(ecs).rng.state == old(ecs).rng.state,
{
    let e = ecs.create_entity();
    ecs.positions[e] = Some(Position { x, y });
    ecs.renderables[e] = Some(
        Renderable { glyph, fg: Rgb { r: 255, g: 0, b: 0 }, bg: Rgb { r: 0, g: 0, b: 0 } },
    );
    ecs.blocks_tile[e] = Some(BlocksTile {  });
    ecs.viewsheds[e] = Some(Viewshed { visible_tiles: Vec::new(), range: 8, dirty: true });
    ecs.monsters[e] = Some(Monster {  });
    ecs.names[e] = Some(Name { name: String::from_str(name) });
    ecs.combat_stats[e] = Some(CombatStats { max_hp: 9, hp: 9, defence: 1, power: 4 });
}

fn orc(ecs: &mut World, x: i32, y: i32)
    requires
        old(ecs).wf(),
        old(ecs).n() < 900000,
        0 <= x < 80,
        0 <= y < 43,
    ensures
        final(ecs).wf(),
        final(ecs).n() == old(ecs).n() + 1,
        final(ecs).monsters@[old(ecs).n()] is Some,
        final(ecs).positions@[old(ecs).n()] == Some(Position { x, y }),
        final(ecs).viewsheds@[old(ecs).n()] is Some,
        final(ecs).combat_stats@[old(ecs).n()] == Some(
            CombatStats { max_hp: 9, hp: 9, defence: 1, power: 4 },
        ),
        final(ecs).names@[old(ecs).n()] is Some,
        final(ecs).blocks_tile@[old(ecs).n()] is Some,
        final(ecs).items@[old(ecs).n()] is None,
        final(ecs).potions@[old(ecs).n()] is None,
        spawn_keeps_existing(*final(ecs), *old(ecs)),
        final(ecs).rng.state == old(ecs).rng.state,
{
    monster(ecs, x, y, 111, "Orc");  // 'o'
}

fn goblin(ecs: &mut World, x: i32, y: i32)
    requires
        old(ecs).wf(),
        old(ecs).n() < 900000,
        0 <= x < 80,
        0 <= y < 43,
    ensures
        final(ecs).wf(),
        final(ecs).n() == old(ecs).n() + 1,
        final(ecs).monsters@[old(ecs).n()] is Some,
        final(ecs).positions@[old(ecs).n()] == Some(Position { x, y }),
        final(ecs).viewsheds@[old(ecs).n()] is Some,
        final(ecs).combat_stats@[old(ecs).n()] == Some(
            CombatStats { max_hp: 9, hp: 9, defence: 1, power: 4 },
        ),
        final(ecs).names@[old(ecs).n()] is Some,
        final(ecs).blocks_tile@[old(ecs).n()] is Some,
        final(ecs).items@[old(ecs).n()] is None,
        final(ecs).potions@[old(ecs).n()] is None,
        spawn_keeps_existing(*final(ecs), *old(ecs)),
        final(ecs).rng.state == old(ecs).rng.state,
{
    monster(ecs, x, y, 103, "Goblin");  // 'g'
}

/// Spawn a random monster, an orc or a goblin with even odds.
pub fn random_monster(ecs: &mut World, x: i32, y: i32)
    requires
        old(ecs).wf(),
        old(ecs).n() < 900000,
        0 <= x < 80,
        0 <= y < 43,
    ensures
        final(ecs).wf(),
        final(ecs).n() == old(ecs).n() + 1,
        final(ecs).monsters@[old(ecs).n()] is Some,
        final(ecs).positions@[old(ecs).n()] == Some(Position { x, y }),
        final(ecs).viewsheds@[old(ecs).n()] is Some,
        final(ecs).combat_stats@[old(ecs).n()] == Some(
            CombatStats { max_hp: 9, hp: 9, defence: 1, power: 4 },
        ),
        final(ecs).names@[old(ecs).n()] is Some,
        final(ecs).blocks_tile@[old(ecs).n()] is Some,
        final(ecs).items@[old(ecs).n()] is None,
        final(ecs).potions@[old(ecs).n()] is None,
        spawn_keeps_existing(*final(ecs), *old(ecs)),
    {
    let roll = ecs.rng.roll_dice(1, 2);
    if roll == 1 {
        orc(ecs, x, y);
    } else {
        goblin(ecs, x, y);
    }
}

/// True if some entry of the vector equals the given value.
fn contains_usize(v: &Vec<usize>, x: usize) -> (r: bool)
    ensures
        r == exists|k: int| 0 <= k < v@.len() && (#[trigger] v@[k]) == x,
{
    let mut i: usize = 0;
    while i < v.len()
        invariant
            i <= v@.len(),
            forall|k: int| 0 <= k < i ==> (#[trigger] v@[k]) != x,
        decreases v@.len() - i,
    {
        if v[i] == x {
            proof {
                assert(v@[i as int] == x);
            }
            return true;
        }
        i = i + 1;
    }
    false
}

/// Fill one room with a random handful of monsters and health potions
/// at distinct random tiles inside it. Monster and item spawn points
/// are drawn separately.
pub fn populate_room(ecs: &mut World, room: &Rect)
    requires
        old(ecs).wf(),
        spec_room_in_bounds(*room),
        old(ecs).n() < 800000,
    ensures
        final(ecs).wf(),
        spawn_keeps_existing(*final(ecs), *old(ecs)),
        final(ecs).n() <= old(ecs).n() + 6,
        // Everything added is a monster or a health potion standing
        // inside the room, the monsters first.
        forall|e: int|
            old(ecs).n() <= e < final(ecs).n() ==> spec_spawned_monster(*final(ecs), e, *room)
                || spec_spawned_potion(*final(ecs), e, *room),
        forall|e1: int, e2: int|
            old(ecs).n() <= e1 <= e2 < final(ecs).n() && spec_spawned_potion(*final(ecs), e1, *room)
                ==> !spec_spawned_monster(*final(ecs), e2, *room),
{
    let mut monster_spawn_points: Vec<usize> = Vec::new();
    let mut item_spawn_points: Vec<usize> = Vec::new();
    let num_monsters = ecs.rng.roll_dice(1, MAX_MONSTERS + 2) - 3;
    let num_items = ecs.rng.roll_dice(1, MAX_MONSTERS + 2) - 3;

    let mut i: i32 = 0;
    while i < num_monsters
        invariant
            ecs.wf(),
            spec_room_in_bounds(*room),
            monster_spawn_points@.len() <= i,
            i <= 3,
            num_monsters <= 3,
            spawn_keeps_existing(*ecs, *old(ecs)),
            ecs.n() == old(ecs).n(),
            forall|k: int|
                0 <= k < monster_spawn_points@.len() ==> {
                    let p = #[trigger] monster_spawn_points@[k];
                    p < 3440 && room.x1 + 1 <= p % 80 <= room.x2 && room.y1 + 1 <= p / 80
                        <= room.y2
                },
        decreases num_monsters - i,
    {
        // Draw a point in the room; skip it if it was already taken,
        // trying a bounded number of times.
        let mut tries: i32 = 0;
        let mut placed = false;
        while tries < 50 && !placed
            invariant
                ecs.wf(),
                spec_room_in_bounds(*room),
                spawn_keeps_existing(*ecs, *old(ecs)),
                ecs.n() == old(ecs).n(),
                !placed ==> monster_spawn_points@.len() <= i,
                placed ==> monster_spawn_points@.len() <= i + 1,
                i <= 3,
                forall|k: int|
                    0 <= k < monster_spawn_points@.len() ==> {
                        let p = #[trigger] monster_spawn_points@[k];
                        p < 3440 && room.x1 + 1 <= p % 80 <= room.x2 && room.y1 + 1 <= p / 80
                            <= room.y2
                    },
            decreases 50 - tries,
        {
            let x = room.x1 + ecs.rng.roll_dice(1, room.x2 - room.x1);
            let y = room.y1 + ecs.rng.roll_dice(1, room.y2 - room.y1);
            let idx = (y as usize) * crate::map::MAPWIDTH + (x as usize);
            proof {
                crate::map::lemma_xy_idx_inverse(x as int, y as int);
            }
            if !contains_usize(&monster_spawn_points, idx) {
                monster_spawn_points.push(idx);
                placed = true;
            }
            tries = tries + 1;
        }
        i = i + 1;
    }

    let mut i2: i32 = 0;
    while i2 < num_items
        invariant
            ecs.wf(),
            spec_room_in_bounds(*room),
            item_spawn_points@.len() <= i2,
            i2 <= 3,
            num_items <= 3,
            spawn_keeps_existing(*ecs, *old(ecs)),
            ecs.n() == old(ecs).n(),
            forall|k: int|
                0 <= k < item_spawn_points@.len() ==> {
                    let p = #[trigger] item_spawn_points@[k];
                    p < 3440 && room.x1 + 1 <= p % 80 <= room.x2 && room.y1 + 1 <= p / 80
                        <= room.y2
                },
        decreases num_items - i2,
    {
        let mut tries: i32 = 0;
        let mut placed = false;
        while tries < 50 && !placed
            invariant
                ecs.wf(),
                spec_room_in_bounds(*room),
                spawn_keeps_existing(*ecs, *old(ecs)),
                ecs.n() == old(ecs).n(),
                !placed ==> item_spawn_points@.len() <= i2,
                placed ==> item_spawn_points@.len() <= i2 + 1,
                i2 <= 3,
                forall|k: int|
                    0 <= k < item_spawn_points@.len() ==> {
                        let p = #[trigger] item_spawn_points@[k];
                        p < 3440 && room.x1 + 1 <= p % 80 <= room.x2 && room.y1 + 1 <= p / 80
                            <= room.y2
                    },
            decreases 50 - tries,
        {
            let x = room.x1 + ecs.rng.roll_dice(1, room.x2 - room.x1);
            let y = room.y1 + ecs.rng.roll_dice(1, room.y2 - room.y1);
            let idx = (y as usize) * crate::map::MAPWIDTH + (x as usize);
            proof {
                crate::map::lemma_xy_idx_inverse(x as int, y as int);
            }
            if !contains_usize(&item_spawn_points, idx) {
                item_spawn_points.push(idx);
                placed = true;
            }
            tries = tries + 1;
        }
        i2 = i2 + 1;
    }

    let mut k: usize = 0;
    while k < monster_spawn_points.len()
        invariant
            ecs.wf(),
            k <= monster_spawn_points@.len(),
            monster_spawn_points@.len() <= 3,
            old(ecs).n() < 800000,
            spawn_keeps_existing(*ecs, *old(ecs)),
            ecs.n() <= old(ecs).n() + k,
            spec_room_in_bounds(*room),
            forall|e: int|
                old(ecs).n() <= e < ecs.n() ==> #[trigger] spec_spawned_monster(*ecs, e, *room),
            forall|j: int|
                0 <= j < monster_spawn_points@.len() ==> {
                    let p = #[trigger] monster_spawn_points@[j];
                    p < 3440 && room.x1 + 1 <= p % 80 <= room.x2 && room.y1 + 1 <= p / 80
                        <= room.y2
                },
        decreases monster_spawn_points@.len() - k,
    {
        let idx = monster_spawn_points[k];
        let x = (idx % crate::map::MAPWIDTH) as i32;
        let y = (idx / crate::map::MAPWIDTH) as i32;
        let ghost pre = *ecs;
        random_monster(ecs, x, y);
        proof {
            assert forall|e: int|
                old(ecs).n() <= e < ecs.n() implies spec_spawned_monster(*ecs, e, *room) by {
                if e < pre.n() {
                    assert(spec_spawned_monster(pre, e, *room));
                }
            }
        }
        k = k + 1;
    }
    let ghost ghost_monster_count = ecs.n();
    let mut k2: usize = 0;
    while k2 < item_spawn_points.len()
        invariant
            ecs.wf(),
            k2 <= item_spawn_points@.len(),
            item_spawn_points@.len() <= 3,
            old(ecs).n() < 800000,
            spawn_keeps_existing(*ecs, *old(ecs)),
            ecs.n() <= old(ecs).n() + 3 + k2,
            spec_room_in_bounds(*room),
            ghost_monster_count <= ecs.n(),
            old(ecs).n() <= ghost_monster_count,
            forall|e: int|
                old(ecs).n() <= e < ghost_monster_count ==> #[trigger] spec_spawned_monster(*ecs, e, *room),
            forall|e: int|
                ghost_monster_count <= e < ecs.n() ==> #[trigger] spec_spawned_potion(*ecs, e, *room),
            forall|j: int|
                0 <= j < item_spawn_points@.len() ==> {
                    let p = #[trigger] item_spawn_points@[j];
                    p < 3440 && room.x1 + 1 <= p % 80 <= room.x2 && room.y1 + 1 <= p / 80
                        <= room.y2
                },
        decreases item_spawn_points@.len() - k2,
    {
        let idx = item_spawn_points[k2];
        let x = (idx % crate::map::MAPWIDTH) as i32;
        let y = (idx / crate::map::MAPWIDTH) as i32;
        let ghost pre = *ecs;
        health_potion(ecs, x, y);
        proof {
            assert forall|e: int|
                old(ecs).n() <= e < ghost_monster_count implies spec_spawned_monster(
                *ecs,
                e,
                *room,
            ) by {
                assert(spec_spawned_monster(pre, e, *room));
            }
            assert forall|e: int|
                ghost_monster_count <= e < ecs.n() implies spec_spawned_potion(*ecs, e, *room) by {
                if e < pre.n() {
                    assert(spec_spawned_potion(pre, e, *room));
                }
            }
        }
        k2 = k2 + 1;
    }
    proof {
        assert forall|e1: int, e2: int|
            old(ecs).n() <= e1 <= e2 < ecs.n() && spec_spawned_potion(
                *ecs,
                e1,
                *room,
            ) implies !spec_spawned_monster(*ecs, e2, *room) by {
            if e1 < ghost_monster_count {
                assert(spec_spawned_monster(*ecs, e1, *room));
            } else {
                assert(spec_spawned_potion(*ecs, e2, *room));
            }
        }
    }
}

} // verus!
