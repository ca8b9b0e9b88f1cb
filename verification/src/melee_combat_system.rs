use vstd::prelude::*;
use vstd::string::StringExecFns;
use crate::components::SufferDamage;
use crate::gamelog::{spec_decimal, u32_to_string};
use crate::world::World;

verus! {

/// Resolves every queued melee intent into damage events and log
/// lines, in attacker order, then clears all the intents. Damage on
/// the same target merges by addition within the pass.
pub struct MeleeCombatSystem {}

/// The display name of an entity, empty when it has none.
pub open spec fn spec_name_of(w: World, e: int) -> Seq<char> {
    if w.names@[e] is Some {
        w.names@[e]->0.name@
    } else {
        Seq::empty()
    }
}

/// Attacker `a` lands an attack this pass: it is a living named
/// combatant with hit points and a melee intent, and its target is a
/// living combatant too.
pub open spec fn spec_attacks(w: World, a: int) -> bool {
    &&& 0 <= a < w.n()
    &&& w.alive@[a]
    &&& w.wants_to_melee@[a] is Some
    &&& w.names@[a] is Some
    &&& w.combat_stats@[a] is Some
    &&& w.combat_stats@[a]->0.hp > 0
    &&& {
        let t = w.wants_to_melee@[a]->0.target as int;
        &&& 0 <= t < w.n()
        &&& w.combat_stats@[t] is Some
        &&& w.combat_stats@[t]->0.hp > 0
    }
}

/// The damage attacker `a` deals: its power less the target's defence,
/// never negative.
pub open spec fn spec_melee_damage(w: World, a: int) -> int {
    let t = w.wants_to_melee@[a]->0.target as int;
    let raw = w.combat_stats@[a]->0.power - w.combat_stats@[t]->0.defence;
    if raw > 0 {
        raw
    } else {
        0
    }
}

/// Damage merged onto whatever the target already suffers this tick,
/// clamped at the top of the machine range rather than wrapping.
pub open spec fn spec_merge_damage(prev: Option<SufferDamage>, dmg: int) -> SufferDamage {
    let base: int = if prev is Some {
        prev->0.amount as int
    } else {
        0
    };
    SufferDamage {
        amount: if base + dmg > 0x7fff_ffff {
            0x7fff_ffffi32
        } else {
            (base + dmg) as i32
        },
    }
}

/// The damage column after the attackers below `upto` have resolved,
/// in order, starting from the queued damage in `w`.
pub open spec fn spec_melee_suffer(w: World, upto: int) -> Seq<Option<SufferDamage>>
    decreases upto,
{
    if upto <= 0 {
        w.suffer_damage@
    } else {
        let prev = spec_melee_suffer(w, upto - 1);
        let a = upto - 1;
        if spec_attacks(w, a) && spec_melee_damage(w, a) > 0 {
            let t = w.wants_to_melee@[a]->0.target as int;
            prev.update(t, Some(spec_merge_damage(prev[t], spec_melee_damage(w, a))))
        } else {
            prev
        }
    }
}

/// The log lines the melee pass appends for the attackers below
/// `upto`, in attacker order.
pub open spec fn spec_melee_log(w: World, upto: int) -> Seq<Seq<char>>
    decreases upto,
{
    if upto <= 0 {
        Seq::empty()
    } else {
        let prior = spec_melee_log(w, upto - 1);
        let a = upto - 1;
        if spec_attacks(w, a) {
            let t = w.wants_to_melee@[a]->0.target as int;
            if spec_melee_damage(w, a) == 0 {
                prior.push(spec_name_of(w, a) + " is unable to hurt "@ + spec_name_of(w, t))
            } else {
                prior.push(
                    spec_name_of(w, a) + " hits "@ + spec_name_of(w, t) + " for "@ + spec_decimal(
                        spec_melee_damage(w, a),
                    ) + " damage"@,
                )
            }
        } else {
            prior
        }
    }
}

/// When no melee intent is queued, the pass changes no damage at all.
pub proof fn lemma_melee_no_attacks(w: World, k: int)
    requires
        forall|a: int| 0 <= a < w.n() ==> (#[trigger] w.wants_to_melee@[a]) is None,
    ensures
        spec_melee_suffer(w, k) == w.suffer_damage@,
    decreases (if k > 0 {
        k
    } else {
        0
    }),
{
    if k > 0 {
        lemma_melee_no_attacks(w, k - 1);
    }
}

impl MeleeCombatSystem {
    pub fn run(ecs: &mut World)
        requires
            old(ecs).wf(),
        ensures
            final(ecs).wf(),
            final(ecs).n() == old(ecs).n(),
            final(ecs).suffer_damage@ == spec_melee_suffer(*old(ecs), old(ecs).n()),
            (forall|a: int| 0 <= a < old(ecs).n() ==> (#[trigger] old(ecs).wants_to_melee@[a]) is None)
                ==> final(ecs).suffer_damage@ == old(ecs).suffer_damage@,
            forall|e: int| 0 <= e < old(ecs).n() ==> (#[trigger] final(ecs).wants_to_melee@[e]) is None,
            final(ecs).log.entries@.len() == old(ecs).log.entries@.len() + spec_melee_log(
                *old(ecs),
                old(ecs).n(),
            ).len(),
            forall|i: int|
                0 <= i < old(ecs).log.entries@.len() ==> (#[trigger] final(ecs).log.entries@[i])
                    == old(ecs).log.entries@[i],
            forall|i: int|
                0 <= i < spec_melee_log(*old(ecs), old(ecs).n()).len() ==> (#[trigger] final(ecs).log.entries@[old(ecs).log.entries@.len() + i])@ == spec_melee_log(
                    *old(ecs),
                    old(ecs).n(),
                )[i],
            final(ecs).alive@ == old(ecs).alive@,
            final(ecs).pending_delete@ == old(ecs).pending_delete@,
            final(ecs).positions@ == old(ecs).positions@,
            final(ecs).renderables@ == old(ecs).renderables@,
            final(ecs).viewsheds@ == old(ecs).viewsheds@,
            final(ecs).players@ == old(ecs).players@,
            final(ecs).monsters@ == old(ecs).monsters@,
            final(ecs).names@ == old(ecs).names@,
            final(ecs).blocks_tile@ == old(ecs).blocks_tile@,
            final(ecs).combat_stats@ == old(ecs).combat_stats@,
            final(ecs).items@ == old(ecs).items@,
            final(ecs).potions@ == old(ecs).potions@,
            final(ecs).in_backpack@ == old(ecs).in_backpack@,
            final(ecs).wants_pickup@ == old(ecs).wants_pickup@,
            final(ecs).wants_drink@ == old(ecs).wants_drink@,
            final(ecs).wants_drop@ == old(ecs).wants_drop@,
            final(ecs).map == old(ecs).map,
            final(ecs).run_state == old(ecs).run_state,
            final(ecs).player_entity == old(ecs).player_entity,
            final(ecs).player_pos == old(ecs).player_pos,
            final(ecs).cursor == old(ecs).cursor,
            final(ecs).rng.state == old(ecs).rng.state,
    {
        let n = ecs.alive.len();
        let mut a: usize = 0;
        while a < n
            invariant
                ecs.wf(),
                n == ecs.n(),
                a <= n,
                ecs.suffer_damage@ == spec_melee_suffer(*old(ecs), a as int),
                forall|e: int| 0 <= e < a ==> (#[trigger] ecs.wants_to_melee@[e]) is None,
                forall|e: int|
                    a <= e < n ==> (#[trigger] ecs.wants_to_melee@[e]) == old(ecs).wants_to_melee@[e],
                ecs.log.entries@.len() == old(ecs).log.entries@.len() + spec_melee_log(
                    *old(ecs),
                    a as int,
                ).len(),
                forall|i: int|
                    0 <= i < old(ecs).log.entries@.len() ==> (#[trigger] ecs.log.entries@[i])
                        == old(ecs).log.entries@[i],
                forall|i: int|
                    0 <= i < spec_melee_log(*old(ecs), a as int).len() ==> (
                    #[trigger] ecs.log.entries@[old(ecs).log.entries@.len() + i])@ == spec_melee_log(
                        *old(ecs),
                        a as int,
                    )[i],
                ecs.alive@ == old(ecs).alive@,
                ecs.pending_delete@ == old(ecs).pending_delete@,
                ecs.positions@ == old(ecs).positions@,
                ecs.renderables@ == old(ecs).renderables@,
                ecs.viewsheds@ == old(ecs).viewsheds@,
                ecs.players@ == old(ecs).players@,
                ecs.monsters@ == old(ecs).monsters@,
                ecs.names@ == old(ecs).names@,
                ecs.blocks_tile@ == old(ecs).blocks_tile@,
                ecs.combat_stats@ == old(ecs).combat_stats@,
                ecs.items@ == old(ecs).items@,
                ecs.potions@ == old(ecs).potions@,
                ecs.in_backpack@ == old(ecs).in_backpack@,
                ecs.wants_pickup@ == old(ecs).wants_pickup@,
                ecs.wants_drink@ == old(ecs).wants_drink@,
                ecs.wants_drop@ == old(ecs).wants_drop@,
                ecs.map == old(ecs).map,
                ecs.run_state == old(ecs).run_state,
                ecs.player_entity == old(ecs).player_entity,
                ecs.player_pos == old(ecs).player_pos,
                ecs.cursor == old(ecs).cursor,
                ecs.rng.state == old(ecs).rng.state,
            decreases n - a,
        {
            let ghost w0 = *old(ecs);
            let attacker_ready = ecs.alive[a] && ecs.wants_to_melee[a].is_some()
                && ecs.names[a].is_some() && ecs.combat_stats[a].is_some();
            if attacker_ready {
                let stats = ecs.combat_stats[a].unwrap();
                if stats.hp > 0 {
                    let target = ecs.wants_to_melee[a].unwrap().target;
                    if target < n && ecs.combat_stats[target].is_some() {
                        let target_stats = ecs.combat_stats[target].unwrap();
                        if target_stats.hp > 0 {
                            let raw = (stats.power as i64) - (target_stats.defence as i64);
                            let damage: i32 = if raw > 0 {
                                raw as i32
                            } else {
                                0
                            };
                            let attacker_name = match &ecs.names[a] {
                                Some(nm) => nm.name.clone(),
                                None => String::new(),
                            };
                            let target_name = match &ecs.names[target] {
                                Some(nm) => nm.name.clone(),
                                None => String::new(),
                            };
                            if damage == 0 {
                                let mut msg = attacker_name;
                                msg.append(" is unable to hurt ");
                                msg.append(target_name.as_str());
                                ecs.log.entries.push(msg);
                            } else {
                                let mut msg = attacker_name;
                                msg.append(" hits ");
                                msg.append(target_name.as_str());
                                msg.append(" for ");
                                let num = u32_to_string(damage as u32);
                                msg.append(num.as_str());
                                msg.append(" damage");
                                ecs.log.entries.push(msg);
                                let base: i64 = match &ecs.suffer_damage[target] {
                                    Some(sd) => sd.amount as i64,
                                    None => 0,
                                };
                                let merged = base + (damage as i64);
                                let amount: i32 = if merged > 0x7fff_ffffi64 {
                                    0x7fff_ffffi32
                                } else {
                                    merged as i32
                                };
                                ecs.suffer_damage[target] = Some(SufferDamage { amount });
                            }
                        }
                    }
                }
            }
            ecs.wants_to_melee[a] = None;
            proof {
                let sl1 = spec_melee_suffer(w0, a + 1);
                let ml1 = spec_melee_log(w0, a + 1);
                let sl0 = spec_melee_suffer(w0, a as int);
                let ml0 = spec_melee_log(w0, a as int);
                if spec_attacks(w0, a as int) {
                    let t = w0.wants_to_melee@[a as int]->0.target as int;
                    if spec_melee_damage(w0, a as int) > 0 {
                        assert(sl1 == sl0.update(
                            t,
                            Some(spec_merge_damage(sl0[t], spec_melee_damage(w0, a as int))),
                        ));
                        assert(ml1 == ml0.push(
                            spec_name_of(w0, a as int) + " hits "@ + spec_name_of(w0, t) + " for "@
                                + spec_decimal(spec_melee_damage(w0, a as int)) + " damage"@,
                        ));
                    } else {
                        assert(sl1 == sl0);
                        assert(ml1 == ml0.push(
                            spec_name_of(w0, a as int) + " is unable to hurt "@ + spec_name_of(
                                w0,
                                t,
                            ),
                        ));
                    }
                } else {
                    assert(sl1 == sl0);
                    assert(ml1 == ml0);
                }
            }
            a = a + 1;
        }
        proof {
            if forall|d: int| 0 <= d < old(ecs).n() ==> (#[trigger] old(ecs).wants_to_melee@[d]) is None {
                lemma_melee_no_attacks(*old(ecs), old(ecs).n());
            }
        }
    }
}

} // verus!
