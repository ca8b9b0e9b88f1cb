use vstd::prelude::*;
use crate::components::Viewshed;
use crate::fov::{field_of_view, lemma_in_fov_tiles, spec_in_fov};
use crate::world::World;

verus! {

/// Recomputes dirty viewsheds from the map, and projects the player's
/// viewshed onto the map's visible and revealed masks. Revealed tiles
/// are never taken back: revelation only grows.
pub struct VisibilitySystem {}

/// Overwrite the map's visible mask with exactly the given points and
/// mark them revealed; revelation of other tiles is kept.
fn apply_player_visibility(map: &mut crate::map::GameMap, visible: &Vec<crate::components::Point>)
    requires
        old(map).wf(),
        forall|j: int|
            0 <= j < visible@.len() ==> {
                let q = #[trigger] visible@[j];
                0 <= q.x < 80 && 0 <= q.y < 43
            },
    ensures
        final(map).wf(),
        forall|i: int|
            0 <= i < 3440 && old(map).revealed_tiles@[i] ==> (#[trigger] final(map).revealed_tiles@[i]),
        // Revelation afterwards is exactly what was revealed before or
        // is visible now.
        forall|i: int|
            0 <= i < 3440 ==> (#[trigger] final(map).revealed_tiles@[i]) == (old(map).revealed_tiles@[i] || final(map).visible_tiles@[i]),
        // The visible mask holds exactly the given points.
        forall|j: int|
            0 <= j < visible@.len() ==> final(map).visible_tiles@[crate::map::spec_xy_idx(
                (#[trigger] visible@[j]).x as int,
                visible@[j].y as int,
            )],
        forall|i: int|
            0 <= i < 3440 && (#[trigger] final(map).visible_tiles@[i]) ==> exists|j: int|
                0 <= j < visible@.len() && crate::map::spec_xy_idx(
                    (#[trigger] visible@[j]).x as int,
                    visible@[j].y as int,
                ) == i,
        final(map).tiles@ == old(map).tiles@,
        final(map).rooms@ == old(map).rooms@,
        final(map).blocked@ == old(map).blocked@,
        final(map).tile_content@ == old(map).tile_content@,
        final(map).width == old(map).width,
        final(map).height == old(map).height,
{
    let ghost mut witness: Seq<int> = Seq::new(3440, |i: int| -1);
    let mut i: usize = 0;
    while i < crate::map::MAPCOUNT
        invariant
            map.wf(),
            i <= 3440,
            forall|j: int|
                0 <= j < 3440 && old(map).revealed_tiles@[j] ==> (#[trigger] map.revealed_tiles@[j]),
            map.revealed_tiles@ == old(map).revealed_tiles@,
            forall|j: int| 0 <= j < i ==> !(#[trigger] map.visible_tiles@[j]),
            map.tiles@ == old(map).tiles@,
            map.rooms@ == old(map).rooms@,
            map.blocked@ == old(map).blocked@,
            map.tile_content@ == old(map).tile_content@,
            map.width == old(map).width,
            map.height == old(map).height,
        decreases 3440 - i,
    {
        map.visible_tiles[i] = false;
        i = i + 1;
    }
    let mut k: usize = 0;
    while k < visible.len()
        invariant
            map.wf(),
            k <= visible@.len(),
            witness.len() == 3440,
            forall|j: int|
                0 <= j < visible@.len() ==> {
                    let q = #[trigger] visible@[j];
                    0 <= q.x < 80 && 0 <= q.y < 43
                },
            forall|j: int|
                0 <= j < 3440 && old(map).revealed_tiles@[j] ==> (#[trigger] map.revealed_tiles@[j]),
            forall|j: int|
                0 <= j < 3440 ==> (#[trigger] map.revealed_tiles@[j]) == (old(map).revealed_tiles@[j] || map.visible_tiles@[j]),
            forall|j: int|
                0 <= j < k ==> map.visible_tiles@[crate::map::spec_xy_idx(
                    (#[trigger] visible@[j]).x as int,
                    visible@[j].y as int,
                )],
            forall|i2: int|
                0 <= i2 < 3440 && (#[trigger] map.visible_tiles@[i2]) ==> 0 <= witness[i2] < k
                    && crate::map::spec_xy_idx(
                    visible@[witness[i2]].x as int,
                    visible@[witness[i2]].y as int,
                ) == i2,
            map.tiles@ == old(map).tiles@,
            map.rooms@ == old(map).rooms@,
            map.blocked@ == old(map).blocked@,
            map.tile_content@ == old(map).tile_content@,
            map.width == old(map).width,
            map.height == old(map).height,
        decreases visible@.len() - k,
    {
        let pt = visible[k];
        let idx = map.xy_idx(pt.x, pt.y);
        map.visible_tiles[idx] = true;
        map.revealed_tiles[idx] = true;
        proof {
            witness = witness.update(idx as int, k as int);
        }
        k = k + 1;
    }
    proof {
        assert forall|i2: int|
            0 <= i2 < 3440 && (#[trigger] map.visible_tiles@[i2]) implies exists|j: int|
            0 <= j < visible@.len() && crate::map::spec_xy_idx(
                (#[trigger] visible@[j]).x as int,
                visible@[j].y as int,
            ) == i2 by {
            assert(crate::map::spec_xy_idx(
                visible@[witness[i2]].x as int,
                visible@[witness[i2]].y as int,
            ) == i2);
        }
    }
}

impl VisibilitySystem {
    pub fn run(ecs: &mut World)
        requires
            old(ecs).wf(),
        ensures
            final(ecs).wf(),
            final(ecs).n() == old(ecs).n(),
            // Reveal monotonicity.
            forall|i: int|
                0 <= i < 3440 && old(ecs).map.revealed_tiles@[i] ==> (#[trigger] final(ecs).map.revealed_tiles@[i]),
            // A dirty viewshed is recomputed to exactly the field of
            // view from the entity's position and range.
            forall|e: int|
                0 <= e < old(ecs).n() && old(ecs).alive@[e] && (#[trigger] old(ecs).viewsheds@[e]) is Some
                    && old(ecs).positions@[e] is Some && old(ecs).viewsheds@[e]->0.dirty ==> {
                    let vt = final(ecs).viewsheds@[e]->0.visible_tiles@;
                    let px = old(ecs).positions@[e]->0.x as int;
                    let py = old(ecs).positions@[e]->0.y as int;
                    let rg = old(ecs).viewsheds@[e]->0.range as int;
                    &&& (forall|k: int|
                        0 <= k < vt.len() ==> spec_in_fov(
                            old(ecs).map,
                            px,
                            py,
                            rg,
                            (#[trigger] vt[k]).x as int,
                            vt[k].y as int,
                        ))
                    &&& (forall|x: int, y: int|
                        #![trigger spec_in_fov(old(ecs).map, px, py, rg, x, y)]
                        spec_in_fov(old(ecs).map, px, py, rg, x, y) ==> exists|k: int|
                            0 <= k < vt.len() && (#[trigger] vt[k])
                                == (crate::components::Point { x: x as i32, y: y as i32 }))
                },
            // A processed viewshed is clean afterwards.
            forall|e: int|
                0 <= e < old(ecs).n() && old(ecs).alive@[e] && (#[trigger] old(ecs).viewsheds@[e]) is Some && old(ecs).positions@[e] is Some ==> final(ecs).viewsheds@[e] is Some && !final(ecs).viewsheds@[e]->0.dirty && final(ecs).viewsheds@[e]->0.range == old(ecs).viewsheds@[e]->0.range,
            // Entities outside the join keep their viewshed.
            forall|e: int|
                0 <= e < old(ecs).n() && !(old(ecs).alive@[e] && old(ecs).viewsheds@[e] is Some
                    && old(ecs).positions@[e] is Some) ==> (#[trigger] final(ecs).viewsheds@[e])
                    == old(ecs).viewsheds@[e],
            // Everything but viewsheds and the two visibility masks is
            // untouched.
            final(ecs).map.tiles@ == old(ecs).map.tiles@,
            final(ecs).map.rooms@ == old(ecs).map.rooms@,
            final(ecs).map.blocked@ == old(ecs).map.blocked@,
            final(ecs).map.tile_content@ == old(ecs).map.tile_content@,
            final(ecs).map.width == old(ecs).map.width,
            final(ecs).map.height == old(ecs).map.height,
            final(ecs).alive@ == old(ecs).alive@,
            final(ecs).pending_delete@ == old(ecs).pending_delete@,
            final(ecs).positions@ == old(ecs).positions@,
            final(ecs).renderables@ == old(ecs).renderables@,
            final(ecs).players@ == old(ecs).players@,
            final(ecs).monsters@ == old(ecs).monsters@,
            final(ecs).names@ == old(ecs).names@,
            final(ecs).blocks_tile@ == old(ecs).blocks_tile@,
            final(ecs).combat_stats@ == old(ecs).combat_stats@,
            final(ecs).wants_to_melee@ == old(ecs).wants_to_melee@,
            final(ecs).suffer_damage@ == old(ecs).suffer_damage@,
            final(ecs).items@ == old(ecs).items@,
            final(ecs).potions@ == old(ecs).potions@,
            final(ecs).in_backpack@ == old(ecs).in_backpack@,
            final(ecs).wants_pickup@ == old(ecs).wants_pickup@,
            final(ecs).wants_drink@ == old(ecs).wants_drink@,
            final(ecs).wants_drop@ == old(ecs).wants_drop@,
            final(ecs).run_state == old(ecs).run_state,
            final(ecs).player_entity == old(ecs).player_entity,
            final(ecs).player_pos == old(ecs).player_pos,
            final(ecs).cursor == old(ecs).cursor,
            final(ecs).log.entries@ == old(ecs).log.entries@,
            final(ecs).rng.state == old(ecs).rng.state,
    {
        let n = ecs.alive.len();
        let mut e: usize = 0;
        while e < n
            invariant
                ecs.wf(),
                n == ecs.n(),
                e <= n,
                forall|i: int|
                    0 <= i < 3440 && old(ecs).map.revealed_tiles@[i] ==> (#[trigger] ecs.map.revealed_tiles@[i]),
                forall|d: int|
                    0 <= d < e && old(ecs).alive@[d] && (#[trigger] old(ecs).viewsheds@[d]) is Some
                        && old(ecs).positions@[d] is Some ==> ecs.viewsheds@[d] is Some
                        && !ecs.viewsheds@[d]->0.dirty && ecs.viewsheds@[d]->0.range == old(ecs).viewsheds@[d]->0.range,
                forall|d: int|
                    0 <= d < e && old(ecs).alive@[d] && (#[trigger] old(ecs).viewsheds@[d]) is Some
                        && old(ecs).positions@[d] is Some && old(ecs).viewsheds@[d]->0.dirty ==> {
                        let vt = ecs.viewsheds@[d]->0.visible_tiles@;
                        let px = old(ecs).positions@[d]->0.x as int;
                        let py = old(ecs).positions@[d]->0.y as int;
                        let rg = old(ecs).viewsheds@[d]->0.range as int;
                        &&& (forall|k: int|
                            0 <= k < vt.len() ==> spec_in_fov(
                                old(ecs).map,
                                px,
                                py,
                                rg,
                                (#[trigger] vt[k]).x as int,
                                vt[k].y as int,
                            ))
                        &&& (forall|x: int, y: int|
                            #![trigger spec_in_fov(old(ecs).map, px, py, rg, x, y)]
                            spec_in_fov(old(ecs).map, px, py, rg, x, y) ==> exists|k: int|
                                0 <= k < vt.len() && (#[trigger] vt[k])
                                    == (crate::components::Point { x: x as i32, y: y as i32 }))
                    },
                forall|d: int|
                    0 <= d < n && !(0 <= d < e && old(ecs).alive@[d] && old(ecs).viewsheds@[d] is Some && old(ecs).positions@[d] is Some) ==> (
                    #[trigger] ecs.viewsheds@[d]) == old(ecs).viewsheds@[d],
                ecs.map.tiles@ == old(ecs).map.tiles@,
                ecs.map.rooms@ == old(ecs).map.rooms@,
                ecs.map.blocked@ == old(ecs).map.blocked@,
                ecs.map.tile_content@ == old(ecs).map.tile_content@,
                ecs.map.width == old(ecs).map.width,
                ecs.map.height == old(ecs).map.height,
                ecs.alive@ == old(ecs).alive@,
                ecs.pending_delete@ == old(ecs).pending_delete@,
                ecs.positions@ == old(ecs).positions@,
                ecs.renderables@ == old(ecs).renderables@,
                ecs.players@ == old(ecs).players@,
                ecs.monsters@ == old(ecs).monsters@,
                ecs.names@ == old(ecs).names@,
                ecs.blocks_tile@ == old(ecs).blocks_tile@,
                ecs.combat_stats@ == old(ecs).combat_stats@,
                ecs.wants_to_melee@ == old(ecs).wants_to_melee@,
                ecs.suffer_damage@ == old(ecs).suffer_damage@,
                ecs.items@ == old(ecs).items@,
                ecs.potions@ == old(ecs).potions@,
                ecs.in_backpack@ == old(ecs).in_backpack@,
                ecs.wants_pickup@ == old(ecs).wants_pickup@,
                ecs.wants_drink@ == old(ecs).wants_drink@,
                ecs.wants_drop@ == old(ecs).wants_drop@,
                ecs.run_state == old(ecs).run_state,
                ecs.player_entity == old(ecs).player_entity,
                ecs.player_pos == old(ecs).player_pos,
                ecs.cursor == old(ecs).cursor,
                ecs.log.entries@ == old(ecs).log.entries@,
                ecs.rng.state == old(ecs).rng.state,
            decreases n - e,
        {
            let mut dirty = false;
            let mut range: i32 = 0;
            let mut has_viewshed = false;
            match &ecs.viewsheds[e] {
                Some(vs) => {
                    has_viewshed = true;
                    dirty = vs.dirty;
                    range = vs.range;
                },
                None => {},
            }
            if ecs.alive[e] && has_viewshed && ecs.positions[e].is_some() {
                if dirty {
                    let p = ecs.positions[e].unwrap();
                    let origin = crate::components::Point { x: p.x, y: p.y };
                    let visible = field_of_view(&ecs.map, origin, range);
                    proof {
                        assert forall|k: int|
                            0 <= k < visible@.len() implies spec_in_fov(
                            old(ecs).map,
                            p.x as int,
                            p.y as int,
                            range as int,
                            (#[trigger] visible@[k]).x as int,
                            visible@[k].y as int,
                        ) by {
                            lemma_in_fov_tiles(
                                ecs.map,
                                old(ecs).map,
                                p.x as int,
                                p.y as int,
                                range as int,
                                visible@[k].x as int,
                                visible@[k].y as int,
                            );
                        }
                        assert forall|x: int, y: int|
                            #![trigger spec_in_fov(old(ecs).map, p.x as int, p.y as int, range as int, x, y)]
                            spec_in_fov(old(ecs).map, p.x as int, p.y as int, range as int, x, y) implies exists|k: int|
                            0 <= k < visible@.len() && (#[trigger] visible@[k])
                                == (crate::components::Point { x: x as i32, y: y as i32 }) by {
                            lemma_in_fov_tiles(
                                ecs.map,
                                old(ecs).map,
                                p.x as int,
                                p.y as int,
                                range as int,
                                x,
                                y,
                            );
                        }
                    }
                    if ecs.players[e].is_some() {
                        apply_player_visibility(&mut ecs.map, &visible);
                    }
                    ecs.viewsheds[e] = Some(
                        Viewshed { visible_tiles: visible, range, dirty: false },
                    );
                    proof {
                        let vt = ecs.viewsheds@[e as int]->0.visible_tiles@;
                        assert(ecs.viewsheds@[e as int] is Some);
                        assert forall|k: int|
                            0 <= k < vt.len() implies spec_in_fov(
                            old(ecs).map,
                            old(ecs).positions@[e as int]->0.x as int,
                            old(ecs).positions@[e as int]->0.y as int,
                            old(ecs).viewsheds@[e as int]->0.range as int,
                            (#[trigger] vt[k]).x as int,
                            vt[k].y as int,
                        ) by {
                            assert(vt[k] == visible@[k]);
                        }
                        assert forall|x: int, y: int|
                            #![trigger spec_in_fov(old(ecs).map, old(ecs).positions@[e as int]->0.x as int, old(ecs).positions@[e as int]->0.y as int, old(ecs).viewsheds@[e as int]->0.range as int, x, y)]
                            spec_in_fov(
                                old(ecs).map,
                                old(ecs).positions@[e as int]->0.x as int,
                                old(ecs).positions@[e as int]->0.y as int,
                                old(ecs).viewsheds@[e as int]->0.range as int,
                                x,
                                y,
                            ) implies exists|k: int|
                            0 <= k < vt.len() && (#[trigger] vt[k]) == (crate::components::Point {
                                x: x as i32,
                                y: y as i32,
                            }) by {
                            let k0 = choose|k: int|
                                0 <= k < visible@.len() && (#[trigger] visible@[k])
                                    == (crate::components::Point { x: x as i32, y: y as i32 });
                            assert(vt[k0] == (crate::components::Point {
                                x: x as i32,
                                y: y as i32,
                            }));
                        }
                    }
                }
            }
            e = e + 1;
        }
    }
}

} // verus!
