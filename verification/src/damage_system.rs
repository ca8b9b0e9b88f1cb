use vstd::prelude::*;
use vstd::string::StringExecFns;
use crate::components::CombatStats;
use crate::world::World;

verus! {

/// Applies queued damage to combat stats and reaps the dead: non-player
/// entities whose hit points fall below one are removed; a dead player
/// stays, so the interface can show a game-over screen.
pub struct DamageSystem {}

/// Hit points after taking `dmg` damage, clamped at the bottom of the
/// machine range rather than wrapping.
pub open spec fn spec_after_damage(stats: CombatStats, dmg: int) -> CombatStats {
    CombatStats {
        hp: if stats.hp - dmg < -0x8000_0000 {
            (-0x8000_0000) as i32
        } else {
            (stats.hp - dmg) as i32
        },
        ..stats
    }
}

/// Entity `e` dies this pass: it has stats, is out of hit points, and
/// is not the player.
pub open spec fn spec_reaped(w: World, e: int) -> bool {
    &&& w.combat_stats@[e] is Some
    &&& w.combat_stats@[e]->0.hp < 1
    &&& w.players@[e] is None
}

/// The log lines `delete_the_dead` appends while walking entities `0`
/// up to `upto`: one line per dead entity, in entity order.
pub open spec fn spec_death_log(w: World, upto: int) -> Seq<Seq<char>>
    decreases upto,
{
    if upto <= 0 {
        Seq::empty()
    } else {
        let prior = spec_death_log(w, upto - 1);
        let e = upto - 1;
        if w.alive@[e] && w.combat_stats@[e] is Some && w.combat_stats@[e]->0.hp < 1 {
            if w.players@[e] is Some {
                prior.push("You are dead"@)
            } else if w.names@[e] is Some {
                prior.push(w.names@[e]->0.name@ + " is dead"@)
            } else {
                prior
            }
        } else {
            prior
        }
    }
}

impl DamageSystem {
    /// Subtract each entity's queued damage from its hit points, then
    /// clear all damage intents.
    pub fn run(ecs: &mut World)
        requires
            old(ecs).wf(),
        ensures
            final(ecs).wf(),
            forall|e: int|
                0 <= e < old(ecs).n() ==> (#[trigger] final(ecs).combat_stats@[e]) == (if old(ecs).combat_stats@[e] is Some && old(ecs).suffer_damage@[e] is Some {
                    Some(
                        spec_after_damage(
                            old(ecs).combat_stats@[e]->0,
                            old(ecs).suffer_damage@[e]->0.amount as int,
                        ),
                    )
                } else {
                    old(ecs).combat_stats@[e]
                }),
            forall|e: int| 0 <= e < old(ecs).n() ==> (#[trigger] final(ecs).suffer_damage@[e]) is None,
            final(ecs).n() == old(ecs).n(),
            final(ecs).alive@ == old(ecs).alive@,
            final(ecs).pending_delete@ == old(ecs).pending_delete@,
            final(ecs).positions@ == old(ecs).positions@,
            final(ecs).renderables@ == old(ecs).renderables@,
            final(ecs).viewsheds@ == old(ecs).viewsheds@,
            final(ecs).players@ == old(ecs).players@,
            final(ecs).monsters@ == old(ecs).monsters@,
            final(ecs).names@ == old(ecs).names@,
            final(ecs).blocks_tile@ == old(ecs).blocks_tile@,
            final(ecs).items@ == old(ecs).items@,
            final(ecs).potions@ == old(ecs).potions@,
            final(ecs).in_backpack@ == old(ecs).in_backpack@,
            final(ecs).wants_to_melee@ == old(ecs).wants_to_melee@,
            final(ecs).wants_pickup@ == old(ecs).wants_pickup@,
            final(ecs).wants_drink@ == old(ecs).wants_drink@,
            final(ecs).wants_drop@ == old(ecs).wants_drop@,
            final(ecs).same_resources(*old(ecs)),
    {
        let n = ecs.alive.len();
        let mut e: usize = 0;
        while e < n
            invariant
                ecs.wf(),
                n == ecs.n(),
                e <= n,
                forall|d: int|
                    0 <= d < e ==> (#[trigger] ecs.combat_stats@[d]) == (if old(ecs).combat_stats@[d] is Some && old(ecs).suffer_damage@[d] is Some {
                        Some(
                            spec_after_damage(
                                old(ecs).combat_stats@[d]->0,
                                old(ecs).suffer_damage@[d]->0.amount as int,
                            ),
                        )
                    } else {
                        old(ecs).combat_stats@[d]
                    }),
                forall|d: int| 0 <= d < e ==> (#[trigger] ecs.suffer_damage@[d]) is None,
                forall|d: int|
                    e <= d < n ==> (#[trigger] ecs.combat_stats@[d]) == old(ecs).combat_stats@[d],
                forall|d: int|
                    e <= d < n ==> (#[trigger] ecs.suffer_damage@[d]) == old(ecs).suffer_damage@[d],
                ecs.alive@ == old(ecs).alive@,
                ecs.pending_delete@ == old(ecs).pending_delete@,
                ecs.positions@ == old(ecs).positions@,
                ecs.renderables@ == old(ecs).renderables@,
                ecs.viewsheds@ == old(ecs).viewsheds@,
                ecs.players@ == old(ecs).players@,
                ecs.monsters@ == old(ecs).monsters@,
                ecs.names@ == old(ecs).names@,
                ecs.blocks_tile@ == old(ecs).blocks_tile@,
                ecs.items@ == old(ecs).items@,
                ecs.potions@ == old(ecs).potions@,
                ecs.in_backpack@ == old(ecs).in_backpack@,
                ecs.wants_to_melee@ == old(ecs).wants_to_melee@,
                ecs.wants_pickup@ == old(ecs).wants_pickup@,
                ecs.wants_drink@ == old(ecs).wants_drink@,
                ecs.wants_drop@ == old(ecs).wants_drop@,
                ecs.same_resources(*old(ecs)),
            decreases n - e,
        {
            if ecs.combat_stats[e].is_some() && ecs.suffer_damage[e].is_some() {
                let stats = ecs.combat_stats[e].unwrap();
                let dmg = ecs.suffer_damage[e].unwrap();
                let wide = (stats.hp as i64) - (dmg.amount as i64);
                let new_hp: i32 = if wide < -0x8000_0000i64 {
                    -0x8000_0000i32
                } else {
                    wide as i32
                };
                ecs.combat_stats[e] = Some(CombatStats { hp: new_hp, ..stats });
            }
            ecs.suffer_damage[e] = None;
            e = e + 1;
        }
    }

    /// Remove every dead non-player entity, logging one line for each
    /// named casualty, and log the player's death without removing it.
    pub fn delete_the_dead(ecs: &mut World)
        requires
            old(ecs).wf(),
        ensures
            final(ecs).wf(),
            final(ecs).n() == old(ecs).n(),
            forall|e: int|
                0 <= e < old(ecs).n() ==> (#[trigger] final(ecs).alive@[e]) == (old(ecs).alive@[e]
                    && !spec_reaped(*old(ecs), e)),
            forall|e: int|
                0 <= e < old(ecs).n() && !(old(ecs).alive@[e] && spec_reaped(*old(ecs), e)) ==> (#[trigger] final(ecs).positions@[e]) == old(ecs).positions@[e],
            forall|e: int|
                0 <= e < old(ecs).n() && !(old(ecs).alive@[e] && spec_reaped(*old(ecs), e)) ==> (#[trigger] final(ecs).combat_stats@[e]) == old(ecs).combat_stats@[e],
            forall|e: int|
                0 <= e < old(ecs).n() && !(old(ecs).alive@[e] && spec_reaped(*old(ecs), e)) ==> (#[trigger] final(ecs).monsters@[e]) == old(ecs).monsters@[e],
            forall|e: int|
                0 <= e < old(ecs).n() && !(old(ecs).alive@[e] && spec_reaped(*old(ecs), e)) ==> (#[trigger] final(ecs).blocks_tile@[e]) == old(ecs).blocks_tile@[e],
            forall|e: int|
                0 <= e < old(ecs).n() && !(old(ecs).alive@[e] && spec_reaped(*old(ecs), e)) ==> (#[trigger] final(ecs).names@[e]) == old(ecs).names@[e],
            forall|e: int|
                0 <= e < old(ecs).n() && !(old(ecs).alive@[e] && spec_reaped(*old(ecs), e)) ==> (#[trigger] final(ecs).viewsheds@[e]) == old(ecs).viewsheds@[e],
            forall|e: int|
                0 <= e < old(ecs).n() && !(old(ecs).alive@[e] && spec_reaped(*old(ecs), e)) ==> (#[trigger] final(ecs).wants_to_melee@[e]) == old(ecs).wants_to_melee@[e],
            forall|e: int|
                0 <= e < old(ecs).n() && !(old(ecs).alive@[e] && spec_reaped(*old(ecs), e)) ==> (#[trigger] final(ecs).suffer_damage@[e]) == old(ecs).suffer_damage@[e],
            forall|e: int|
                0 <= e < old(ecs).n() && !(old(ecs).alive@[e] && spec_reaped(*old(ecs), e)) ==> (#[trigger] final(ecs).items@[e]) == old(ecs).items@[e],
            forall|e: int|
                0 <= e < old(ecs).n() && !(old(ecs).alive@[e] && spec_reaped(*old(ecs), e)) ==> (#[trigger] final(ecs).potions@[e]) == old(ecs).potions@[e],
            forall|e: int|
                0 <= e < old(ecs).n() && !(old(ecs).alive@[e] && spec_reaped(*old(ecs), e)) ==> (#[trigger] final(ecs).in_backpack@[e]) == old(ecs).in_backpack@[e],
            forall|e: int|
                0 <= e < old(ecs).n() && !(old(ecs).alive@[e] && spec_reaped(*old(ecs), e)) ==> (#[trigger] final(ecs).wants_pickup@[e]) == old(ecs).wants_pickup@[e],
            forall|e: int|
                0 <= e < old(ecs).n() && !(old(ecs).alive@[e] && spec_reaped(*old(ecs), e)) ==> (#[trigger] final(ecs).wants_drink@[e]) == old(ecs).wants_drink@[e],
            forall|e: int|
                0 <= e < old(ecs).n() && !(old(ecs).alive@[e] && spec_reaped(*old(ecs), e)) ==> (#[trigger] final(ecs).wants_drop@[e]) == old(ecs).wants_drop@[e],
            forall|e: int|
                0 <= e < old(ecs).n() && !(old(ecs).alive@[e] && spec_reaped(*old(ecs), e)) ==> (#[trigger] final(ecs).renderables@[e]) == old(ecs).renderables@[e],
            forall|e: int|
                0 <= e < old(ecs).n() && old(ecs).alive@[e] && spec_reaped(*old(ecs), e) ==> (#[trigger] final(ecs).positions@[e]) is None,
            forall|e: int|
                0 <= e < old(ecs).n() && old(ecs).alive@[e] && spec_reaped(*old(ecs), e) ==> (#[trigger] final(ecs).viewsheds@[e]) is None,
            forall|e: int|
                0 <= e < old(ecs).n() && old(ecs).alive@[e] && spec_reaped(*old(ecs), e) ==> (#[trigger] final(ecs).monsters@[e]) is None,
            forall|e: int|
                0 <= e < old(ecs).n() && old(ecs).alive@[e] && spec_reaped(*old(ecs), e) ==> (#[trigger] final(ecs).blocks_tile@[e]) is None,
            forall|e: int|
                0 <= e < old(ecs).n() && old(ecs).alive@[e] && spec_reaped(*old(ecs), e) ==> (#[trigger] final(ecs).combat_stats@[e]) is None,
            forall|e: int|
                0 <= e < old(ecs).n() && old(ecs).alive@[e] && spec_reaped(*old(ecs), e) ==> (#[trigger] final(ecs).wants_to_melee@[e]) is None,
            forall|e: int|
                0 <= e < old(ecs).n() && old(ecs).alive@[e] && spec_reaped(*old(ecs), e) ==> (#[trigger] final(ecs).suffer_damage@[e]) is None,
            forall|e: int|
                0 <= e < old(ecs).n() && old(ecs).alive@[e] && spec_reaped(*old(ecs), e) ==> (#[trigger] final(ecs).items@[e]) is None,
            forall|e: int|
                0 <= e < old(ecs).n() && old(ecs).alive@[e] && spec_reaped(*old(ecs), e) ==> (#[trigger] final(ecs).potions@[e]) is None,
            forall|e: int|
                0 <= e < old(ecs).n() && old(ecs).alive@[e] && spec_reaped(*old(ecs), e) ==> (#[trigger] final(ecs).in_backpack@[e]) is None,
            forall|e: int|
                0 <= e < old(ecs).n() && old(ecs).alive@[e] && spec_reaped(*old(ecs), e) ==> (#[trigger] final(ecs).wants_pickup@[e]) is None,
            forall|e: int|
                0 <= e < old(ecs).n() && old(ecs).alive@[e] && spec_reaped(*old(ecs), e) ==> (#[trigger] final(ecs).wants_drink@[e]) is None,
            forall|e: int|
                0 <= e < old(ecs).n() && old(ecs).alive@[e] && spec_reaped(*old(ecs), e) ==> (#[trigger] final(ecs).wants_drop@[e]) is None,
            final(ecs).players@ == old(ecs).players@,
            final(ecs).pending_delete@ == old(ecs).pending_delete@,
            final(ecs).log.entries@.len() == old(ecs).log.entries@.len() + spec_death_log(*old(ecs), old(ecs).n()).len(),
            forall|i: int|
                0 <= i < old(ecs).log.entries@.len() ==> (#[trigger] final(ecs).log.entries@[i]) == old(ecs).log.entries@[i],
            forall|i: int|
                0 <= i < spec_death_log(*old(ecs), old(ecs).n()).len() ==> (#[trigger] final(ecs).log.entries@[old(ecs).log.entries@.len() + i])@ == spec_death_log(*old(ecs), old(ecs).n())[i],
            final(ecs).map == old(ecs).map,
            final(ecs).run_state == old(ecs).run_state,
            final(ecs).player_entity == old(ecs).player_entity,
            final(ecs).player_pos == old(ecs).player_pos,
            final(ecs).cursor == old(ecs).cursor,
            final(ecs).rng.state == old(ecs).rng.state,
    {
        let n = ecs.alive.len();
        let mut e: usize = 0;
        while e < n
            invariant
                ecs.wf(),
                n == ecs.n(),
                e <= n,
                forall|d: int|
                    0 <= d < e ==> (#[trigger] ecs.alive@[d]) == (old(ecs).alive@[d]
                        && !spec_reaped(*old(ecs), d)),
                forall|d: int| e <= d < n ==> (#[trigger] ecs.alive@[d]) == old(ecs).alive@[d],
                forall|d: int|
                    0 <= d < n && !(0 <= d < e && old(ecs).alive@[d] && spec_reaped(*old(ecs), d)) ==> (#[trigger] ecs.positions@[d]) == old(ecs).positions@[d],
                forall|d: int|
                    0 <= d < n && !(0 <= d < e && old(ecs).alive@[d] && spec_reaped(*old(ecs), d)) ==> (#[trigger] ecs.combat_stats@[d]) == old(ecs).combat_stats@[d],
                forall|d: int|
                    0 <= d < n && !(0 <= d < e && old(ecs).alive@[d] && spec_reaped(*old(ecs), d)) ==> (#[trigger] ecs.monsters@[d]) == old(ecs).monsters@[d],
                forall|d: int|
                    0 <= d < n && !(0 <= d < e && old(ecs).alive@[d] && spec_reaped(*old(ecs), d)) ==> (#[trigger] ecs.blocks_tile@[d]) == old(ecs).blocks_tile@[d],
                forall|d: int|
                    0 <= d < n && !(0 <= d < e && old(ecs).alive@[d] && spec_reaped(*old(ecs), d)) ==> (#[trigger] ecs.names@[d]) == old(ecs).names@[d],
                forall|d: int|
                    0 <= d < n && !(0 <= d < e && old(ecs).alive@[d] && spec_reaped(*old(ecs), d)) ==> (#[trigger] ecs.viewsheds@[d]) == old(ecs).viewsheds@[d],
                forall|d: int|
                    0 <= d < n && !(0 <= d < e && old(ecs).alive@[d] && spec_reaped(*old(ecs), d)) ==> (#[trigger] ecs.wants_to_melee@[d]) == old(ecs).wants_to_melee@[d],
                forall|d: int|
                    0 <= d < n && !(0 <= d < e && old(ecs).alive@[d] && spec_reaped(*old(ecs), d)) ==> (#[trigger] ecs.suffer_damage@[d]) == old(ecs).suffer_damage@[d],
                forall|d: int|
                    0 <= d < n && !(0 <= d < e && old(ecs).alive@[d] && spec_reaped(*old(ecs), d)) ==> (#[trigger] ecs.items@[d]) == old(ecs).items@[d],
                forall|d: int|
                    0 <= d < n && !(0 <= d < e && old(ecs).alive@[d] && spec_reaped(*old(ecs), d)) ==> (#[trigger] ecs.potions@[d]) == old(ecs).potions@[d],
                forall|d: int|
                    0 <= d < n && !(0 <= d < e && old(ecs).alive@[d] && spec_reaped(*old(ecs), d)) ==> (#[trigger] ecs.in_backpack@[d]) == old(ecs).in_backpack@[d],
                forall|d: int|
                    0 <= d < n && !(0 <= d < e && old(ecs).alive@[d] && spec_reaped(*old(ecs), d)) ==> (#[trigger] ecs.wants_pickup@[d]) == old(ecs).wants_pickup@[d],
                forall|d: int|
                    0 <= d < n && !(0 <= d < e && old(ecs).alive@[d] && spec_reaped(*old(ecs), d)) ==> (#[trigger] ecs.wants_drink@[d]) == old(ecs).wants_drink@[d],
                forall|d: int|
                    0 <= d < n && !(0 <= d < e && old(ecs).alive@[d] && spec_reaped(*old(ecs), d)) ==> (#[trigger] ecs.wants_drop@[d]) == old(ecs).wants_drop@[d],
                forall|d: int|
                    0 <= d < n && !(0 <= d < e && old(ecs).alive@[d] && spec_reaped(*old(ecs), d)) ==> (#[trigger] ecs.renderables@[d]) == old(ecs).renderables@[d],
                forall|d: int|
                    0 <= d < e && old(ecs).alive@[d] && spec_reaped(*old(ecs), d) ==> (#[trigger] ecs.positions@[d]) is None,
                forall|d: int|
                    0 <= d < e && old(ecs).alive@[d] && spec_reaped(*old(ecs), d) ==> (#[trigger] ecs.viewsheds@[d]) is None,
                forall|d: int|
                    0 <= d < e && old(ecs).alive@[d] && spec_reaped(*old(ecs), d) ==> (#[trigger] ecs.monsters@[d]) is None,
                forall|d: int|
                    0 <= d < e && old(ecs).alive@[d] && spec_reaped(*old(ecs), d) ==> (#[trigger] ecs.blocks_tile@[d]) is None,
                forall|d: int|
                    0 <= d < e && old(ecs).alive@[d] && spec_reaped(*old(ecs), d) ==> (#[trigger] ecs.combat_stats@[d]) is None,
                forall|d: int|
                    0 <= d < e && old(ecs).alive@[d] && spec_reaped(*old(ecs), d) ==> (#[trigger] ecs.wants_to_melee@[d]) is None,
                forall|d: int|
                    0 <= d < e && old(ecs).alive@[d] && spec_reaped(*old(ecs), d) ==> (#[trigger] ecs.suffer_damage@[d]) is None,
                forall|d: int|
                    0 <= d < e && old(ecs).alive@[d] && spec_reaped(*old(ecs), d) ==> (#[trigger] ecs.items@[d]) is None,
                forall|d: int|
                    0 <= d < e && old(ecs).alive@[d] && spec_reaped(*old(ecs), d) ==> (#[trigger] ecs.potions@[d]) is None,
                forall|d: int|
                    0 <= d < e && old(ecs).alive@[d] && spec_reaped(*old(ecs), d) ==> (#[trigger] ecs.in_backpack@[d]) is None,
                forall|d: int|
                    0 <= d < e && old(ecs).alive@[d] && spec_reaped(*old(ecs), d) ==> (#[trigger] ecs.wants_pickup@[d]) is None,
                forall|d: int|
                    0 <= d < e && old(ecs).alive@[d] && spec_reaped(*old(ecs), d) ==> (#[trigger] ecs.wants_drink@[d]) is None,
                forall|d: int|
                    0 <= d < e && old(ecs).alive@[d] && spec_reaped(*old(ecs), d) ==> (#[trigger] ecs.wants_drop@[d]) is None,
                ecs.players@ == old(ecs).players@,
                ecs.pending_delete@ == old(ecs).pending_delete@,
                ecs.log.entries@.len() == old(ecs).log.entries@.len() + spec_death_log(*old(ecs), e as int).len(),
                forall|i: int|
                    0 <= i < old(ecs).log.entries@.len() ==> (#[trigger] ecs.log.entries@[i]) == old(ecs).log.entries@[i],
                forall|i: int|
                    0 <= i < spec_death_log(*old(ecs), e as int).len() ==> (#[trigger] ecs.log.entries@[old(ecs).log.entries@.len() + i])@ == spec_death_log(*old(ecs), e as int)[i],
                ecs.map == old(ecs).map,
                ecs.run_state == old(ecs).run_state,
                ecs.player_entity == old(ecs).player_entity,
                ecs.player_pos == old(ecs).player_pos,
                ecs.cursor == old(ecs).cursor,
                ecs.rng.state == old(ecs).rng.state,
            decreases n - e,
        {
            proof {
                assert(ecs.positions@[e as int] == old(ecs).positions@[e as int]);
                assert(ecs.combat_stats@[e as int] == old(ecs).combat_stats@[e as int]);
                assert(ecs.names@[e as int] == old(ecs).names@[e as int]);
            }
            if ecs.alive[e] && ecs.combat_stats[e].is_some() {
                let stats = ecs.combat_stats[e].unwrap();
                if stats.hp < 1 {
                    if ecs.players[e].is_some() {
                        let msg = String::from_str("You are dead");
                        ecs.log.entries.push(msg);
                    } else {
                        if ecs.names[e].is_some() {
                            let mut msg = match &ecs.names[e] {
                                Some(nm) => nm.name.clone(),
                                None => String::new(),
                            };
                            msg.append(" is dead");
                            ecs.log.entries.push(msg);
                        }
                        ecs.purge(e);
                    }
                }
            }
            proof {
                let dl1 = spec_death_log(*old(ecs), e + 1);
                let dl0 = spec_death_log(*old(ecs), e as int);
                if old(ecs).alive@[e as int] && old(ecs).combat_stats@[e as int] is Some && old(ecs).combat_stats@[e as int]->0.hp < 1 {
                    if old(ecs).players@[e as int] is Some {
                        assert(dl1 == dl0.push("You are dead"@));
                    } else if old(ecs).names@[e as int] is Some {
                        assert(dl1 == dl0.push(old(ecs).names@[e as int]->0.name@ + " is dead"@));
                    } else {
                        assert(dl1 == dl0);
                    }
                } else {
                    assert(dl1 == dl0);
                }
            }
            e = e + 1;
        }
    }
}

} // verus!
