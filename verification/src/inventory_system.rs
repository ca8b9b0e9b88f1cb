use vstd::prelude::*;
use vstd::string::StringExecFns;
use crate::components::{CombatStats, InBackpack, Position};
use crate::gamelog::{spec_decimal, u32_to_string};
use crate::melee_combat_system::spec_name_of;
use crate::world::World;

verus! {

/// Moves picked-up items into their collector's backpack.
pub struct ItemCollectionSystem {}

/// Heals potion drinkers, clamped at their maximum, and deletes the
/// potion (committed by the next `maintain`).
pub struct PotionUseSystem {}

/// Puts dropped items back on the ground at the dropper's tile.
pub struct ItemDropSystem {}

/// Collector `a` picks something up this pass: it is alive, holds a
/// pickup intent, and the named item slot exists.
pub open spec fn spec_collects(w: World, a: int) -> bool {
    &&& 0 <= a < w.n()
    &&& w.alive@[a]
    &&& w.wants_pickup@[a] is Some
    &&& 0 <= w.wants_pickup@[a]->0.item < w.n()
}

/// The position column after the collectors below `upto` have taken
/// their items off the ground.
pub open spec fn spec_pickup_positions(w: World, upto: int) -> Seq<Option<Position>>
    decreases upto,
{
    if upto <= 0 {
        w.positions@
    } else {
        let prev = spec_pickup_positions(w, upto - 1);
        let a = upto - 1;
        if spec_collects(w, a) {
            prev.update(w.wants_pickup@[a]->0.item as int, None)
        } else {
            prev
        }
    }
}

/// The backpack column after the collectors below `upto` have bagged
/// their items.
pub open spec fn spec_pickup_backpack(w: World, upto: int) -> Seq<Option<InBackpack>>
    decreases upto,
{
    if upto <= 0 {
        w.in_backpack@
    } else {
        let prev = spec_pickup_backpack(w, upto - 1);
        let a = upto - 1;
        if spec_collects(w, a) {
            prev.update(
                w.wants_pickup@[a]->0.item as int,
                Some(InBackpack { owner: w.wants_pickup@[a]->0.collected_by }),
            )
        } else {
            prev
        }
    }
}

/// The log lines the pickup pass appends: one for each item the player
/// collects.
pub open spec fn spec_pickup_log(w: World, upto: int) -> Seq<Seq<char>>
    decreases upto,
{
    if upto <= 0 {
        Seq::empty()
    } else {
        let prior = spec_pickup_log(w, upto - 1);
        let a = upto - 1;
        if spec_collects(w, a) && w.wants_pickup@[a]->0.collected_by == w.player_entity {
            prior.push("You pick up the "@ + spec_name_of(w, w.wants_pickup@[a]->0.item as int))
        } else {
            prior
        }
    }
}

proof fn lemma_pickup_len(w: World, k: int)
    requires
        w.lens_ok(),
    ensures
        spec_pickup_positions(w, k).len() == w.positions@.len(),
        spec_pickup_backpack(w, k).len() == w.in_backpack@.len(),
    decreases (if k > 0 {
        k
    } else {
        0
    }),
{
    if k > 0 {
        lemma_pickup_len(w, k - 1);
        if spec_collects(w, k - 1) {
            assert(spec_pickup_positions(w, k) == spec_pickup_positions(w, k - 1).update(
                w.wants_pickup@[k - 1]->0.item as int,
                None,
            ));
            assert(spec_pickup_backpack(w, k) == spec_pickup_backpack(w, k - 1).update(
                w.wants_pickup@[k - 1]->0.item as int,
                Some(InBackpack { owner: w.wants_pickup@[k - 1]->0.collected_by }),
            ));
        } else {
            assert(spec_pickup_positions(w, k) == spec_pickup_positions(w, k - 1));
            assert(spec_pickup_backpack(w, k) == spec_pickup_backpack(w, k - 1));
        }
    }
}

/// An item someone below `k` picks up ends the pass off the ground and
/// in a backpack, whoever bagged it last.
pub proof fn lemma_pickup_lands(w: World, k: int, i: int)
    requires
        w.lens_ok(),
        0 <= i < w.n(),
        exists|a: int|
            0 <= a < k && #[trigger] spec_collects(w, a) && w.wants_pickup@[a]->0.item == i,
    ensures
        spec_pickup_positions(w, k)[i] is None,
        spec_pickup_backpack(w, k)[i] is Some,
    decreases (if k > 0 {
        k
    } else {
        0
    }),
{
    lemma_pickup_len(w, k - 1);
    let a = choose|a: int|
        0 <= a < k && #[trigger] spec_collects(w, a) && w.wants_pickup@[a]->0.item == i;
    if a < k - 1 {
        lemma_pickup_lands(w, k - 1, i);
    }
}

/// An item no pickup intent names keeps its place and its bag.
pub proof fn lemma_pickup_unnamed(w: World, k: int, i: int)
    requires
        w.lens_ok(),
        0 <= i < w.n(),
        forall|a: int|
            0 <= a < w.n() ==> !((#[trigger] w.wants_pickup@[a]) is Some && spec_collects(w, a)
                && w.wants_pickup@[a]->0.item == i),
        k <= w.n(),
    ensures
        spec_pickup_positions(w, k)[i] == w.positions@[i],
        spec_pickup_backpack(w, k)[i] == w.in_backpack@[i],
    decreases (if k > 0 {
        k
    } else {
        0
    }),
{
    if k > 0 {
        lemma_pickup_len(w, k - 1);
        lemma_pickup_unnamed(w, k - 1, i);
    }
}

impl ItemCollectionSystem {
    pub fn run(ecs: &mut World)
        requires
            old(ecs).wf(),
        ensures
            final(ecs).wf(),
            final(ecs).n() == old(ecs).n(),
            final(ecs).positions@ == spec_pickup_positions(*old(ecs), old(ecs).n()),
            final(ecs).in_backpack@ == spec_pickup_backpack(*old(ecs), old(ecs).n()),
            // An item someone picks up ends the pass off the ground
            // and in a backpack.
            forall|i: int, a: int|
                #![trigger final(ecs).positions@[i], old(ecs).wants_pickup@[a]]
                0 <= i < old(ecs).n() && 0 <= a < old(ecs).n() && spec_collects(*old(ecs), a)
                    && old(ecs).wants_pickup@[a]->0.item == i ==> final(ecs).positions@[i] is None
                    && final(ecs).in_backpack@[i] is Some,
            forall|e: int| 0 <= e < old(ecs).n() ==> (#[trigger] final(ecs).wants_pickup@[e]) is None,
            final(ecs).log.entries@.len() == old(ecs).log.entries@.len() + spec_pickup_log(
                *old(ecs),
                old(ecs).n(),
            ).len(),
            forall|i: int|
                0 <= i < old(ecs).log.entries@.len() ==> (#[trigger] final(ecs).log.entries@[i])
                    == old(ecs).log.entries@[i],
            forall|i: int|
                0 <= i < spec_pickup_log(*old(ecs), old(ecs).n()).len() ==> (#[trigger] final(ecs).log.entries@[old(ecs).log.entries@.len() + i])@ == spec_pickup_log(
                    *old(ecs),
                    old(ecs).n(),
                )[i],
            final(ecs).alive@ == old(ecs).alive@,
            final(ecs).pending_delete@ == old(ecs).pending_delete@,
            final(ecs).renderables@ == old(ecs).renderables@,
            final(ecs).viewsheds@ == old(ecs).viewsheds@,
            final(ecs).players@ == old(ecs).players@,
            final(ecs).monsters@ == old(ecs).monsters@,
            final(ecs).names@ == old(ecs).names@,
            final(ecs).blocks_tile@ == old(ecs).blocks_tile@,
            final(ecs).combat_stats@ == old(ecs).combat_stats@,
            final(ecs).wants_to_melee@ == old(ecs).wants_to_melee@,
            final(ecs).suffer_damage@ == old(ecs).suffer_damage@,
            final(ecs).items@ == old(ecs).items@,
            final(ecs).potions@ == old(ecs).potions@,
            final(ecs).wants_drink@ == old(ecs).wants_drink@,
            final(ecs).wants_drop@ == old(ecs).wants_drop@,
            final(ecs).map == old(ecs).map,
            final(ecs).run_state == old(ecs).run_state,
            final(ecs).player_entity == old(ecs).player_entity,
            final(ecs).player_pos == old(ecs).player_pos,
            final(ecs).cursor == old(ecs).cursor,
            final(ecs).rng.state == old(ecs).rng.state,
    {
        let n = ecs.alive.len();
        let mut a: usize = 0;
        while a < n
            invariant
                ecs.wf(),
                n == ecs.n(),
                a <= n,
                ecs.positions@ == spec_pickup_positions(*old(ecs), a as int),
                ecs.in_backpack@ == spec_pickup_backpack(*old(ecs), a as int),
                forall|e: int| 0 <= e < a ==> (#[trigger] ecs.wants_pickup@[e]) is None,
                forall|e: int|
                    a <= e < n ==> (#[trigger] ecs.wants_pickup@[e]) == old(ecs).wants_pickup@[e],
                ecs.log.entries@.len() == old(ecs).log.entries@.len() + spec_pickup_log(
                    *old(ecs),
                    a as int,
                ).len(),
                forall|i: int|
                    0 <= i < old(ecs).log.entries@.len() ==> (#[trigger] ecs.log.entries@[i])
                        == old(ecs).log.entries@[i],
                forall|i: int|
                    0 <= i < spec_pickup_log(*old(ecs), a as int).len() ==> (
                    #[trigger] ecs.log.entries@[old(ecs).log.entries@.len() + i])@
                        == spec_pickup_log(*old(ecs), a as int)[i],
                ecs.alive@ == old(ecs).alive@,
                ecs.pending_delete@ == old(ecs).pending_delete@,
                ecs.renderables@ == old(ecs).renderables@,
                ecs.viewsheds@ == old(ecs).viewsheds@,
                ecs.players@ == old(ecs).players@,
                ecs.monsters@ == old(ecs).monsters@,
                ecs.names@ == old(ecs).names@,
                ecs.blocks_tile@ == old(ecs).blocks_tile@,
                ecs.combat_stats@ == old(ecs).combat_stats@,
                ecs.wants_to_melee@ == old(ecs).wants_to_melee@,
                ecs.suffer_damage@ == old(ecs).suffer_damage@,
                ecs.items@ == old(ecs).items@,
                ecs.potions@ == old(ecs).potions@,
                ecs.wants_drink@ == old(ecs).wants_drink@,
                ecs.wants_drop@ == old(ecs).wants_drop@,
                ecs.map == old(ecs).map,
                ecs.run_state == old(ecs).run_state,
                ecs.player_entity == old(ecs).player_entity,
                ecs.player_pos == old(ecs).player_pos,
                ecs.cursor == old(ecs).cursor,
                ecs.rng.state == old(ecs).rng.state,
            decreases n - a,
        {
            let ghost w0 = *old(ecs);
            if ecs.alive[a] && ecs.wants_pickup[a].is_some() {
                let wp = ecs.wants_pickup[a].unwrap();
                if wp.item < n {
                    ecs.positions[wp.item] = None;
                    ecs.in_backpack[wp.item] = Some(InBackpack { owner: wp.collected_by });
                    if wp.collected_by == ecs.player_entity {
                        let mut msg = String::from_str("You pick up the ");
                        let item_name = match &ecs.names[wp.item] {
                            Some(nm) => nm.name.clone(),
                            None => String::new(),
                        };
                        msg.append(item_name.as_str());
                        ecs.log.entries.push(msg);
                    }
                }
            }
            ecs.wants_pickup[a] = None;
            proof {
                let a1 = a + 1;
                if spec_collects(w0, a as int) {
                    assert(spec_pickup_positions(w0, a1) == spec_pickup_positions(
                        w0,
                        a as int,
                    ).update(w0.wants_pickup@[a as int]->0.item as int, None));
                    assert(spec_pickup_backpack(w0, a1) == spec_pickup_backpack(
                        w0,
                        a as int,
                    ).update(
                        w0.wants_pickup@[a as int]->0.item as int,
                        Some(InBackpack { owner: w0.wants_pickup@[a as int]->0.collected_by }),
                    ));
                    if w0.wants_pickup@[a as int]->0.collected_by == w0.player_entity {
                        assert(spec_pickup_log(w0, a1) == spec_pickup_log(w0, a as int).push(
                            "You pick up the "@ + spec_name_of(
                                w0,
                                w0.wants_pickup@[a as int]->0.item as int,
                            ),
                        ));
                    } else {
                        assert(spec_pickup_log(w0, a1) == spec_pickup_log(w0, a as int));
                    }
                } else {
                    assert(spec_pickup_positions(w0, a1) == spec_pickup_positions(w0, a as int));
                    assert(spec_pickup_backpack(w0, a1) == spec_pickup_backpack(w0, a as int));
                    assert(spec_pickup_log(w0, a1) == spec_pickup_log(w0, a as int));
                }
            }
            a = a + 1;
        }
        proof {
            assert forall|i: int, a2: int|
                #![trigger ecs.positions@[i], old(ecs).wants_pickup@[a2]]
                0 <= i < old(ecs).n() && 0 <= a2 < old(ecs).n() && spec_collects(*old(ecs), a2)
                    && old(ecs).wants_pickup@[a2]->0.item == i implies ecs.positions@[i] is None
                && ecs.in_backpack@[i] is Some by {
                assert(spec_collects(*old(ecs), a2) && old(ecs).wants_pickup@[a2]->0.item == i);
                lemma_pickup_lands(*old(ecs), old(ecs).n(), i);
            }
        }
    }
}

/// Entity `e` drinks this pass: it is alive with stats and a drink
/// intent naming an existing potion.
pub open spec fn spec_drinks(w: World, e: int) -> bool {
    &&& 0 <= e < w.n()
    &&& w.alive@[e]
    &&& w.wants_drink@[e] is Some
    &&& w.combat_stats@[e] is Some
    &&& 0 <= w.wants_drink@[e]->0.potion < w.n()
    &&& w.potions@[w.wants_drink@[e]->0.potion as int] is Some
}

/// Hit points after drinking: healed by the potion's amount but never
/// over the maximum.
pub open spec fn spec_healed(stats: CombatStats, heal: int) -> CombatStats {
    CombatStats {
        hp: if stats.hp + heal > stats.max_hp {
            stats.max_hp
        } else {
            (stats.hp + heal) as i32
        },
        ..stats
    }
}

/// The delete marks after the drinkers below `upto` have emptied their
/// potions.
pub open spec fn spec_drink_pending(w: World, upto: int) -> Seq<bool>
    decreases upto,
{
    if upto <= 0 {
        w.pending_delete@
    } else {
        let prev = spec_drink_pending(w, upto - 1);
        let e = upto - 1;
        if spec_drinks(w, e) {
            prev.update(w.wants_drink@[e]->0.potion as int, true)
        } else {
            prev
        }
    }
}

/// The log lines the potion pass appends: one when the player drinks.
pub open spec fn spec_drink_log(w: World, upto: int) -> Seq<Seq<char>>
    decreases upto,
{
    if upto <= 0 {
        Seq::empty()
    } else {
        let prior = spec_drink_log(w, upto - 1);
        let e = upto - 1;
        if spec_drinks(w, e) && e == w.player_entity {
            let p = w.wants_drink@[e]->0.potion as int;
            prior.push(
                "You drink the "@ + spec_name_of(w, p) + ", healing "@ + spec_decimal(
                    w.potions@[p]->0.heal_amount as int,
                ) + " hp"@,
            )
        } else {
            prior
        }
    }
}

/// A delete mark lands only on potions some drink intent names: any
/// entity no drink intent names keeps its old mark.
pub proof fn lemma_drink_pending_unnamed(w: World, k: int, x: int)
    requires
        w.lens_ok(),
        0 <= x < w.n(),
        forall|e: int|
            0 <= e < w.n() ==> !((#[trigger] w.wants_drink@[e]) is Some
                && w.wants_drink@[e]->0.potion == x),
        k <= w.n(),
    ensures
        spec_drink_pending(w, k).len() == w.pending_delete@.len(),
        spec_drink_pending(w, k)[x] == w.pending_delete@[x],
    decreases (if k > 0 {
        k
    } else {
        0
    }),
{
    if k > 0 {
        lemma_drink_pending_unnamed(w, k - 1, x);
    }
}

/// Marks from the drink pass land only on entities that are potions:
/// anything else keeps its old delete mark.
pub proof fn lemma_drink_pending_frame(w: World, upto: int, x: int)
    requires
        w.lens_ok(),
        0 <= x < w.n(),
        w.potions@[x] is None,
    ensures
        spec_drink_pending(w, upto).len() == w.pending_delete@.len(),
        spec_drink_pending(w, upto)[x] == w.pending_delete@[x],
    decreases (if upto > 0 {
        upto
    } else {
        0
    }),
{
    if upto > 0 {
        lemma_drink_pending_frame(w, upto - 1, x);
    }
}

/// Drinking keeps hit points within their maximum and never lowers
/// them: the healed value is clamped above by `max_hp` and below by
/// the old hit points.
pub proof fn lemma_potion_heal_bounds(stats: CombatStats, heal: int)
    requires
        crate::components::spec_stats_ok(stats),
        0 <= heal,
    ensures
        spec_healed(stats, heal).hp <= spec_healed(stats, heal).max_hp,
        spec_healed(stats, heal).hp >= stats.hp,
{
}

impl PotionUseSystem {
    pub fn run(ecs: &mut World)
        requires
            old(ecs).wf(),
        ensures
            final(ecs).wf(),
            final(ecs).n() == old(ecs).n(),
            forall|e: int|
                0 <= e < old(ecs).n() ==> (#[trigger] final(ecs).combat_stats@[e]) == (if
                spec_drinks(*old(ecs), e) {
                    Some(
                        spec_healed(
                            old(ecs).combat_stats@[e]->0,
                            old(ecs).potions@[old(ecs).wants_drink@[e]->0.potion as int]->0.heal_amount as int,
                        ),
                    )
                } else {
                    old(ecs).combat_stats@[e]
                }),
            final(ecs).pending_delete@ == spec_drink_pending(*old(ecs), old(ecs).n()),
            forall|x: int|
                0 <= x < old(ecs).n() && old(ecs).potions@[x] is None ==> (#[trigger] final(ecs).pending_delete@[x]) == old(ecs).pending_delete@[x],
            forall|x: int|
                0 <= x < old(ecs).n() && (forall|e: int|
                    0 <= e < old(ecs).n() ==> !((#[trigger] old(ecs).wants_drink@[e]) is Some
                        && old(ecs).wants_drink@[e]->0.potion == x)) ==> (#[trigger] final(ecs).pending_delete@[x]) == old(ecs).pending_delete@[x],
            forall|e: int| 0 <= e < old(ecs).n() ==> (#[trigger] final(ecs).wants_drink@[e]) is None,
            final(ecs).log.entries@.len() == old(ecs).log.entries@.len() + spec_drink_log(
                *old(ecs),
                old(ecs).n(),
            ).len(),
            forall|i: int|
                0 <= i < old(ecs).log.entries@.len() ==> (#[trigger] final(ecs).log.entries@[i])
                    == old(ecs).log.entries@[i],
            forall|i: int|
                0 <= i < spec_drink_log(*old(ecs), old(ecs).n()).len() ==> (#[trigger] final(ecs).log.entries@[old(ecs).log.entries@.len() + i])@ == spec_drink_log(
                    *old(ecs),
                    old(ecs).n(),
                )[i],
            final(ecs).alive@ == old(ecs).alive@,
            final(ecs).positions@ == old(ecs).positions@,
            final(ecs).renderables@ == old(ecs).renderables@,
            final(ecs).viewsheds@ == old(ecs).viewsheds@,
            final(ecs).players@ == old(ecs).players@,
            final(ecs).monsters@ == old(ecs).monsters@,
            final(ecs).names@ == old(ecs).names@,
            final(ecs).blocks_tile@ == old(ecs).blocks_tile@,
            final(ecs).wants_to_melee@ == old(ecs).wants_to_melee@,
            final(ecs).suffer_damage@ == old(ecs).suffer_damage@,
            final(ecs).items@ == old(ecs).items@,
            final(ecs).potions@ == old(ecs).potions@,
            final(ecs).in_backpack@ == old(ecs).in_backpack@,
            final(ecs).wants_pickup@ == old(ecs).wants_pickup@,
            final(ecs).wants_drop@ == old(ecs).wants_drop@,
            final(ecs).map == old(ecs).map,
            final(ecs).run_state == old(ecs).run_state,
            final(ecs).player_entity == old(ecs).player_entity,
            final(ecs).player_pos == old(ecs).player_pos,
            final(ecs).cursor == old(ecs).cursor,
            final(ecs).rng.state == old(ecs).rng.state,
    {
        let n = ecs.alive.len();
        let mut e: usize = 0;
        while e < n
            invariant
                ecs.wf(),
                n == ecs.n(),
                e <= n,
                forall|d: int|
                    0 <= d < e ==> (#[trigger] ecs.combat_stats@[d]) == (if spec_drinks(
                        *old(ecs),
                        d,
                    ) {
                        Some(
                            spec_healed(
                                old(ecs).combat_stats@[d]->0,
                                old(ecs).potions@[old(ecs).wants_drink@[d]->0.potion as int]->0.heal_amount as int,
                            ),
                        )
                    } else {
                        old(ecs).combat_stats@[d]
                    }),
                forall|d: int|
                    e <= d < n ==> (#[trigger] ecs.combat_stats@[d]) == old(ecs).combat_stats@[d],
                ecs.pending_delete@ == spec_drink_pending(*old(ecs), e as int),
                forall|d: int| 0 <= d < e ==> (#[trigger] ecs.wants_drink@[d]) is None,
                forall|d: int|
                    e <= d < n ==> (#[trigger] ecs.wants_drink@[d]) == old(ecs).wants_drink@[d],
                ecs.log.entries@.len() == old(ecs).log.entries@.len() + spec_drink_log(
                    *old(ecs),
                    e as int,
                ).len(),
                forall|i: int|
                    0 <= i < old(ecs).log.entries@.len() ==> (#[trigger] ecs.log.entries@[i])
                        == old(ecs).log.entries@[i],
                forall|i: int|
                    0 <= i < spec_drink_log(*old(ecs), e as int).len() ==> (
                    #[trigger] ecs.log.entries@[old(ecs).log.entries@.len() + i])@ == spec_drink_log(
                        *old(ecs),
                        e as int,
                    )[i],
                ecs.alive@ == old(ecs).alive@,
                ecs.positions@ == old(ecs).positions@,
                ecs.renderables@ == old(ecs).renderables@,
                ecs.viewsheds@ == old(ecs).viewsheds@,
                ecs.players@ == old(ecs).players@,
                ecs.monsters@ == old(ecs).monsters@,
                ecs.names@ == old(ecs).names@,
                ecs.blocks_tile@ == old(ecs).blocks_tile@,
                ecs.wants_to_melee@ == old(ecs).wants_to_melee@,
                ecs.suffer_damage@ == old(ecs).suffer_damage@,
                ecs.items@ == old(ecs).items@,
                ecs.potions@ == old(ecs).potions@,
                ecs.in_backpack@ == old(ecs).in_backpack@,
                ecs.wants_pickup@ == old(ecs).wants_pickup@,
                ecs.wants_drop@ == old(ecs).wants_drop@,
                ecs.map == old(ecs).map,
                ecs.run_state == old(ecs).run_state,
                ecs.player_entity == old(ecs).player_entity,
                ecs.player_pos == old(ecs).player_pos,
                ecs.cursor == old(ecs).cursor,
                ecs.rng.state == old(ecs).rng.state,
            decreases n - e,
        {
            let ghost w0 = *old(ecs);
            if ecs.alive[e] && ecs.wants_drink[e].is_some() && ecs.combat_stats[e].is_some() {
                let drink = ecs.wants_drink[e].unwrap();
                if drink.potion < n && ecs.potions[drink.potion].is_some() {
                    let potion = ecs.potions[drink.potion].unwrap();
                    let stats = ecs.combat_stats[e].unwrap();
                    let healed = stats.hp + potion.heal_amount;
                    let new_hp = if healed > stats.max_hp {
                        stats.max_hp
                    } else {
                        healed
                    };
                    ecs.combat_stats[e] = Some(CombatStats { hp: new_hp, ..stats });
                    if e == ecs.player_entity {
                        let mut msg = String::from_str("You drink the ");
                        let potion_name = match &ecs.names[drink.potion] {
                            Some(nm) => nm.name.clone(),
                            None => String::new(),
                        };
                        msg.append(potion_name.as_str());
                        msg.append(", healing ");
                        let num = u32_to_string(potion.heal_amount as u32);
                        msg.append(num.as_str());
                        msg.append(" hp");
                        ecs.log.entries.push(msg);
                    }
                    ecs.pending_delete[drink.potion] = true;
                }
            }
            ecs.wants_drink[e] = None;
            proof {
                let e1 = e + 1;
                if spec_drinks(w0, e as int) {
                    assert(spec_drink_pending(w0, e1) == spec_drink_pending(w0, e as int).update(
                        w0.wants_drink@[e as int]->0.potion as int,
                        true,
                    ));
                    if e == w0.player_entity {
                        let p = w0.wants_drink@[e as int]->0.potion as int;
                        assert(spec_drink_log(w0, e1) == spec_drink_log(w0, e as int).push(
                            "You drink the "@ + spec_name_of(w0, p) + ", healing "@ + spec_decimal(
                                w0.potions@[p]->0.heal_amount as int,
                            ) + " hp"@,
                        ));
                    } else {
                        assert(spec_drink_log(w0, e1) == spec_drink_log(w0, e as int));
                    }
                } else {
                    assert(spec_drink_pending(w0, e1) == spec_drink_pending(w0, e as int));
                    assert(spec_drink_log(w0, e1) == spec_drink_log(w0, e as int));
                }
            }
            e = e + 1;
        }
        proof {
            assert forall|x: int|
                0 <= x < old(ecs).n() && old(ecs).potions@[x] is None implies (
            #[trigger] ecs.pending_delete@[x]) == old(ecs).pending_delete@[x] by {
                lemma_drink_pending_frame(*old(ecs), old(ecs).n(), x);
            }
            assert forall|x: int|
                0 <= x < old(ecs).n() && (forall|e: int|
                    0 <= e < old(ecs).n() ==> !((#[trigger] old(ecs).wants_drink@[e]) is Some
                        && old(ecs).wants_drink@[e]->0.potion == x)) implies (
            #[trigger] ecs.pending_delete@[x]) == old(ecs).pending_delete@[x] by {
                lemma_drink_pending_unnamed(*old(ecs), old(ecs).n(), x);
            }
        }
    }
}

proof fn lemma_drop_len(w: World, k: int)
    requires
        w.lens_ok(),
    ensures
        spec_drop_fold(w, k).0.len() == w.positions@.len(),
        spec_drop_fold(w, k).1.len() == w.in_backpack@.len(),
    decreases (if k > 0 {
        k
    } else {
        0
    }),
{
    if k > 0 {
        lemma_drop_len(w, k - 1);
    }
}

/// An item no drop intent names keeps its place and its bag through
/// the drop pass.
pub proof fn lemma_drop_unnamed(w: World, k: int, i: int)
    requires
        w.lens_ok(),
        0 <= i < w.n(),
        forall|e: int|
            0 <= e < w.n() ==> !((#[trigger] w.wants_drop@[e]) is Some && w.wants_drop@[e]->0.item
                == i),
        k <= w.n(),
    ensures
        spec_drop_fold(w, k).0[i] == w.positions@[i],
        spec_drop_fold(w, k).1[i] == w.in_backpack@[i],
    decreases (if k > 0 {
        k
    } else {
        0
    }),
{
    if k > 0 {
        lemma_drop_len(w, k - 1);
        lemma_drop_unnamed(w, k - 1, i);
    }
}

/// Dropper `e` puts an item down this pass: it is alive and standing
/// somewhere, with a drop intent naming an existing item slot. The
/// item lands on the dropper's current tile, which may itself have
/// been set by an earlier drop in the same pass.
pub open spec fn spec_drops(w: World, positions: Seq<Option<Position>>, e: int) -> bool {
    &&& 0 <= e < w.n()
    &&& w.alive@[e]
    &&& w.wants_drop@[e] is Some
    &&& positions[e] is Some
    &&& 0 <= w.wants_drop@[e]->0.item < w.n()
}

/// Positions and backpacks after the droppers below `upto` have put
/// their items down, walked in entity order over the evolving position
/// column.
pub open spec fn spec_drop_fold(w: World, upto: int) -> (
    Seq<Option<Position>>,
    Seq<Option<InBackpack>>,
)
    decreases upto,
{
    if upto <= 0 {
        (w.positions@, w.in_backpack@)
    } else {
        let prev = spec_drop_fold(w, upto - 1);
        let e = upto - 1;
        if spec_drops(w, prev.0, e) {
            let item = w.wants_drop@[e]->0.item as int;
            (prev.0.update(item, prev.0[e]), prev.1.update(item, None))
        } else {
            prev
        }
    }
}

/// The log lines the drop pass appends: one for each item the player
/// puts down.
pub open spec fn spec_drop_log(w: World, upto: int) -> Seq<Seq<char>>
    decreases upto,
{
    if upto <= 0 {
        Seq::empty()
    } else {
        let prior = spec_drop_log(w, upto - 1);
        let e = upto - 1;
        if spec_drops(w, spec_drop_fold(w, upto - 1).0, e) && e == w.player_entity {
            prior.push("You drop the "@ + spec_name_of(w, w.wants_drop@[e]->0.item as int))
        } else {
            prior
        }
    }
}

impl ItemDropSystem {
    pub fn run(ecs: &mut World)
        requires
            old(ecs).wf(),
        ensures
            final(ecs).wf(),
            final(ecs).n() == old(ecs).n(),
            final(ecs).positions@ == spec_drop_fold(*old(ecs), old(ecs).n()).0,
            final(ecs).in_backpack@ == spec_drop_fold(*old(ecs), old(ecs).n()).1,
            // An item no drop intent names keeps its place and its bag.
            forall|i: int|
                0 <= i < old(ecs).n() && (forall|e: int|
                    0 <= e < old(ecs).n() ==> !((#[trigger] old(ecs).wants_drop@[e]) is Some
                        && old(ecs).wants_drop@[e]->0.item == i)) ==> (#[trigger] final(ecs).positions@[i]) == old(ecs).positions@[i] && final(ecs).in_backpack@[i] == old(ecs).in_backpack@[i],
            forall|e: int| 0 <= e < old(ecs).n() ==> (#[trigger] final(ecs).wants_drop@[e]) is None,
            final(ecs).log.entries@.len() == old(ecs).log.entries@.len() + spec_drop_log(
                *old(ecs),
                old(ecs).n(),
            ).len(),
            forall|i: int|
                0 <= i < old(ecs).log.entries@.len() ==> (#[trigger] final(ecs).log.entries@[i])
                    == old(ecs).log.entries@[i],
            forall|i: int|
                0 <= i < spec_drop_log(*old(ecs), old(ecs).n()).len() ==> (#[trigger] final(ecs).log.entries@[old(ecs).log.entries@.len() + i])@ == spec_drop_log(
                    *old(ecs),
                    old(ecs).n(),
                )[i],
            final(ecs).alive@ == old(ecs).alive@,
            final(ecs).pending_delete@ == old(ecs).pending_delete@,
            final(ecs).renderables@ == old(ecs).renderables@,
            final(ecs).viewsheds@ == old(ecs).viewsheds@,
            final(ecs).players@ == old(ecs).players@,
            final(ecs).monsters@ == old(ecs).monsters@,
            final(ecs).names@ == old(ecs).names@,
            final(ecs).blocks_tile@ == old(ecs).blocks_tile@,
            final(ecs).combat_stats@ == old(ecs).combat_stats@,
            final(ecs).wants_to_melee@ == old(ecs).wants_to_melee@,
            final(ecs).suffer_damage@ == old(ecs).suffer_damage@,
            final(ecs).items@ == old(ecs).items@,
            final(ecs).potions@ == old(ecs).potions@,
            final(ecs).wants_pickup@ == old(ecs).wants_pickup@,
            final(ecs).wants_drink@ == old(ecs).wants_drink@,
            final(ecs).map == old(ecs).map,
            final(ecs).run_state == old(ecs).run_state,
            final(ecs).player_entity == old(ecs).player_entity,
            final(ecs).player_pos == old(ecs).player_pos,
            final(ecs).cursor == old(ecs).cursor,
            final(ecs).rng.state == old(ecs).rng.state,
    {
        let n = ecs.alive.len();
        let mut e: usize = 0;
        while e < n
            invariant
                ecs.wf(),
                n == ecs.n(),
                e <= n,
                ecs.positions@ == spec_drop_fold(*old(ecs), e as int).0,
                ecs.in_backpack@ == spec_drop_fold(*old(ecs), e as int).1,
                forall|d: int| 0 <= d < e ==> (#[trigger] ecs.wants_drop@[d]) is None,
                forall|d: int|
                    e <= d < n ==> (#[trigger] ecs.wants_drop@[d]) == old(ecs).wants_drop@[d],
                ecs.log.entries@.len() == old(ecs).log.entries@.len() + spec_drop_log(
                    *old(ecs),
                    e as int,
                ).len(),
                forall|i: int|
                    0 <= i < old(ecs).log.entries@.len() ==> (#[trigger] ecs.log.entries@[i])
                        == old(ecs).log.entries@[i],
                forall|i: int|
                    0 <= i < spec_drop_log(*old(ecs), e as int).len() ==> (
                    #[trigger] ecs.log.entries@[old(ecs).log.entries@.len() + i])@ == spec_drop_log(
                        *old(ecs),
                        e as int,
                    )[i],
                ecs.alive@ == old(ecs).alive@,
                ecs.pending_delete@ == old(ecs).pending_delete@,
                ecs.renderables@ == old(ecs).renderables@,
                ecs.viewsheds@ == old(ecs).viewsheds@,
                ecs.players@ == old(ecs).players@,
                ecs.monsters@ == old(ecs).monsters@,
                ecs.names@ == old(ecs).names@,
                ecs.blocks_tile@ == old(ecs).blocks_tile@,
                ecs.combat_stats@ == old(ecs).combat_stats@,
                ecs.wants_to_melee@ == old(ecs).wants_to_melee@,
                ecs.suffer_damage@ == old(ecs).suffer_damage@,
                ecs.items@ == old(ecs).items@,
                ecs.potions@ == old(ecs).potions@,
                ecs.wants_pickup@ == old(ecs).wants_pickup@,
                ecs.wants_drink@ == old(ecs).wants_drink@,
                ecs.map == old(ecs).map,
                ecs.run_state == old(ecs).run_state,
                ecs.player_entity == old(ecs).player_entity,
                ecs.player_pos == old(ecs).player_pos,
                ecs.cursor == old(ecs).cursor,
                ecs.rng.state == old(ecs).rng.state,
            decreases n - e,
        {
            let ghost w0 = *old(ecs);
            if ecs.alive[e] && ecs.wants_drop[e].is_some() && ecs.positions[e].is_some() {
                let to_drop = ecs.wants_drop[e].unwrap();
                if to_drop.item < n {
                    let dropper_pos = ecs.positions[e].unwrap();
                    ecs.positions[to_drop.item] = Some(dropper_pos);
                    ecs.in_backpack[to_drop.item] = None;
                    if e == ecs.player_entity {
                        let mut msg = String::from_str("You drop the ");
                        let item_name = match &ecs.names[to_drop.item] {
                            Some(nm) => nm.name.clone(),
                            None => String::new(),
                        };
                        msg.append(item_name.as_str());
                        ecs.log.entries.push(msg);
                    }
                }
            }
            ecs.wants_drop[e] = None;
            proof {
                let e1 = e + 1;
                let prev = spec_drop_fold(w0, e as int);
                if spec_drops(w0, prev.0, e as int) {
                    let item = w0.wants_drop@[e as int]->0.item as int;
                    assert(spec_drop_fold(w0, e1).0 == prev.0.update(item, prev.0[e as int]));
                    assert(spec_drop_fold(w0, e1).1 == prev.1.update(item, None));
                    if e == w0.player_entity {
                        assert(spec_drop_log(w0, e1) == spec_drop_log(w0, e as int).push(
                            "You drop the "@ + spec_name_of(w0, item),
                        ));
                    } else {
                        assert(spec_drop_log(w0, e1) == spec_drop_log(w0, e as int));
                    }
                } else {
                    assert(spec_drop_fold(w0, e1) == prev);
                    assert(spec_drop_log(w0, e1) == spec_drop_log(w0, e as int));
                }
            }
            e = e + 1;
        }
        proof {
            assert forall|i: int|
                0 <= i < old(ecs).n() && (forall|e2: int|
                    0 <= e2 < old(ecs).n() ==> !((#[trigger] old(ecs).wants_drop@[e2]) is Some
                        && old(ecs).wants_drop@[e2]->0.item == i)) implies (
            #[trigger] ecs.positions@[i]) == old(ecs).positions@[i] && ecs.in_backpack@[i] == old(ecs).in_backpack@[i] by {
                lemma_drop_unnamed(*old(ecs), old(ecs).n(), i);
            }
        }
    }
}

} // verus!
