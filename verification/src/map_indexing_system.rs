use vstd::prelude::*;
use crate::map::{TileType, spec_xy_idx};
use crate::world::World;

verus! {

/// Rebuilds the map's occupancy index from the entity store: `blocked`
/// holds exactly the wall tiles and the tiles of living blocking
/// entities, and each tile's content list holds exactly the living
/// entities positioned there, in ascending entity order.
pub struct MapIndexingSystem {}

/// The tile index a positioned entity occupies.
pub open spec fn spec_entity_idx(w: World, e: int) -> int {
    spec_xy_idx(w.positions@[e]->0.x as int, w.positions@[e]->0.y as int)
}

/// Entity `e` is alive and stands on tile `i`.
pub open spec fn spec_occupies(w: World, e: int, i: int) -> bool {
    &&& 0 <= e < w.n()
    &&& w.alive@[e]
    &&& w.positions@[e] is Some
    &&& spec_entity_idx(w, e) == i
}

/// Some living entity that blocks movement stands on tile `i`.
pub open spec fn spec_tile_blocked_by_entity(w: World, i: int) -> bool {
    exists|e: int| spec_occupies(w, e, i) && (#[trigger] w.blocks_tile@[e]) is Some
}

/// Entity `e` is listed in tile `i`'s content.
pub open spec fn spec_in_content(w: World, i: int, e: int) -> bool {
    exists|k: int|
        0 <= k < w.map.tile_content@[i]@.len() && (#[trigger] w.map.tile_content@[i]@[k]) == e
}

impl MapIndexingSystem {
    pub fn run(ecs: &mut World)
        requires
            old(ecs).wf(),
        ensures
            final(ecs).wf(),
            // Occupancy coherence: blocked holds exactly walls and
            // tiles with a living blocking entity.
            forall|i: int|
                0 <= i < 3440 ==> ((#[trigger] final(ecs).map.blocked@[i]) <==> (final(ecs).map.tiles@[i] == TileType::WALL || spec_tile_blocked_by_entity(*final(ecs), i))),
            // Each tile lists exactly its living positioned entities.
            forall|i: int, k: int|
                0 <= i < 3440 && 0 <= k < final(ecs).map.tile_content@[i]@.len()
                    ==> spec_occupies(
                    *final(ecs),
                    (#[trigger] final(ecs).map.tile_content@[i]@[k]) as int,
                    i,
                ),
            forall|e: int|
                spec_occupies(*final(ecs), e, spec_entity_idx(*final(ecs), e)) ==> spec_in_content(
                    *final(ecs),
                    spec_entity_idx(*final(ecs), e),
                    e,
                ),
            // Content lists are strictly ascending: no duplicates, and
            // iteration order is the entity order.
            forall|i: int, k1: int, k2: int|
                0 <= i < 3440 && 0 <= k1 < k2 < final(ecs).map.tile_content@[i]@.len() ==> (
                #[trigger] final(ecs).map.tile_content@[i]@[k1]) < (#[trigger] final(ecs).map.tile_content@[i]@[k2]),
            // Everything but the occupancy index is untouched.
            final(ecs).map.tiles@ == old(ecs).map.tiles@,
            final(ecs).map.rooms@ == old(ecs).map.rooms@,
            final(ecs).map.revealed_tiles@ == old(ecs).map.revealed_tiles@,
            final(ecs).map.visible_tiles@ == old(ecs).map.visible_tiles@,
            final(ecs).map.width == old(ecs).map.width,
            final(ecs).map.height == old(ecs).map.height,
            final(ecs).alive@ == old(ecs).alive@,
            final(ecs).pending_delete@ == old(ecs).pending_delete@,
            final(ecs).positions@ == old(ecs).positions@,
            final(ecs).renderables@ == old(ecs).renderables@,
            final(ecs).viewsheds@ == old(ecs).viewsheds@,
            final(ecs).players@ == old(ecs).players@,
            final(ecs).monsters@ == old(ecs).monsters@,
            final(ecs).names@ == old(ecs).names@,
            final(ecs).blocks_tile@ == old(ecs).blocks_tile@,
            final(ecs).combat_stats@ == old(ecs).combat_stats@,
            final(ecs).wants_to_melee@ == old(ecs).wants_to_melee@,
            final(ecs).suffer_damage@ == old(ecs).suffer_damage@,
            final(ecs).items@ == old(ecs).items@,
            final(ecs).potions@ == old(ecs).potions@,
            final(ecs).in_backpack@ == old(ecs).in_backpack@,
            final(ecs).wants_pickup@ == old(ecs).wants_pickup@,
            final(ecs).wants_drink@ == old(ecs).wants_drink@,
            final(ecs).wants_drop@ == old(ecs).wants_drop@,
            final(ecs).run_state == old(ecs).run_state,
            final(ecs).player_entity == old(ecs).player_entity,
            final(ecs).player_pos == old(ecs).player_pos,
            final(ecs).cursor == old(ecs).cursor,
            final(ecs).log.entries@ == old(ecs).log.entries@,
            final(ecs).rng.state == old(ecs).rng.state,
    {
        ecs.map.populate_blocked();
        ecs.map.clear_content_index();
        let n = ecs.alive.len();
        let mut e: usize = 0;
        while e < n
            invariant
                ecs.wf(),
                n == ecs.n(),
                e <= n,
                ecs.map.tiles@ == old(ecs).map.tiles@,
                ecs.map.rooms@ == old(ecs).map.rooms@,
                ecs.map.revealed_tiles@ == old(ecs).map.revealed_tiles@,
                ecs.map.visible_tiles@ == old(ecs).map.visible_tiles@,
                ecs.map.width == old(ecs).map.width,
                ecs.map.height == old(ecs).map.height,
                ecs.alive@ == old(ecs).alive@,
                ecs.pending_delete@ == old(ecs).pending_delete@,
                ecs.positions@ == old(ecs).positions@,
                ecs.renderables@ == old(ecs).renderables@,
                ecs.viewsheds@ == old(ecs).viewsheds@,
                ecs.players@ == old(ecs).players@,
                ecs.monsters@ == old(ecs).monsters@,
                ecs.names@ == old(ecs).names@,
                ecs.blocks_tile@ == old(ecs).blocks_tile@,
                ecs.combat_stats@ == old(ecs).combat_stats@,
                ecs.wants_to_melee@ == old(ecs).wants_to_melee@,
                ecs.suffer_damage@ == old(ecs).suffer_damage@,
                ecs.items@ == old(ecs).items@,
                ecs.potions@ == old(ecs).potions@,
                ecs.in_backpack@ == old(ecs).in_backpack@,
                ecs.wants_pickup@ == old(ecs).wants_pickup@,
                ecs.wants_drink@ == old(ecs).wants_drink@,
                ecs.wants_drop@ == old(ecs).wants_drop@,
                ecs.run_state == old(ecs).run_state,
                ecs.player_entity == old(ecs).player_entity,
                ecs.player_pos == old(ecs).player_pos,
                ecs.cursor == old(ecs).cursor,
                ecs.log.entries@ == old(ecs).log.entries@,
                ecs.rng.state == old(ecs).rng.state,
                // blocked coherence over the processed prefix
                forall|i: int|
                    0 <= i < 3440 ==> ((#[trigger] ecs.map.blocked@[i]) <==> (ecs.map.tiles@[i]
                        == TileType::WALL || exists|d: int|
                        #![trigger old(ecs).blocks_tile@[d]]
                        0 <= d < e && spec_occupies(*old(ecs), d, i) && old(ecs).blocks_tile@[d] is Some)),
                // content soundness over the prefix
                forall|i: int, k: int|
                    0 <= i < 3440 && 0 <= k < ecs.map.tile_content@[i]@.len() ==> {
                        let d = (#[trigger] ecs.map.tile_content@[i]@[k]) as int;
                        d < e && spec_occupies(*old(ecs), d, i)
                    },
                // content completeness over the prefix
                forall|d: int|
                    #![trigger old(ecs).positions@[d]]
                    0 <= d < e && old(ecs).alive@[d] && old(ecs).positions@[d] is Some
                        ==> exists|k: int|
                        0 <= k < ecs.map.tile_content@[spec_entity_idx(*old(ecs), d)]@.len() && (
                        #[trigger] ecs.map.tile_content@[spec_entity_idx(*old(ecs), d)]@[k]) == d,
                // ascending order
                forall|i: int, k1: int, k2: int|
                    0 <= i < 3440 && 0 <= k1 < k2 < ecs.map.tile_content@[i]@.len() ==> (
                    #[trigger] ecs.map.tile_content@[i]@[k1]) < (#[trigger] ecs.map.tile_content@[i]@[k2]),
            decreases n - e,
        {
            let ghost pre = *ecs;
            let has_pos = ecs.positions[e].is_some();
            let is_live = ecs.alive[e];
            if is_live && has_pos {
                let p = ecs.positions[e].unwrap();
                let idx = ecs.map.xy_idx(p.x, p.y);
                if ecs.blocks_tile[e].is_some() {
                    ecs.map.blocked[idx] = true;
                }
                let content = &mut ecs.map.tile_content[idx];
                content.push(e);
                proof {
                    assert(ecs.map.tile_content@[idx as int]@.last() == e);
                    assert forall|d: int|
                        #![trigger old(ecs).positions@[d]]
                        0 <= d < e + 1 && old(ecs).alive@[d] && old(ecs).positions@[d] is Some implies exists|k: int|
                        0 <= k < ecs.map.tile_content@[spec_entity_idx(*old(ecs), d)]@.len() && (
                        #[trigger] ecs.map.tile_content@[spec_entity_idx(*old(ecs), d)]@[k])
                            == d by {
                        let i_d = spec_entity_idx(*old(ecs), d);
                        if d == e {
                            assert(ecs.map.tile_content@[i_d]@[ecs.map.tile_content@[i_d]@.len()
                                - 1] == d);
                        } else {
                            let k0 = choose|k: int|
                                0 <= k < pre.map.tile_content@[i_d]@.len()
                                    && pre.map.tile_content@[i_d]@[k] == d;
                            assert(ecs.map.tile_content@[i_d]@[k0] == d);
                        }
                    }
                }
            }
            e = e + 1;
        }
    }
}

} // verus!
