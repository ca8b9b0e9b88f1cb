use vstd::prelude::*;
use vstd::string::StringExecFns;
use crate::components::{Point, WantsToDrinkPotion, WantsToDropItem};
use crate::damage_system::DamageSystem;
use crate::gamelog::GameLog;
use crate::gui::{show_drop_item, show_inventory, spec_menu_result, ItemMenuResult};
use crate::components::CombatStats;
use crate::damage_system::spec_after_damage;
use crate::inventory_system::{
    spec_collects, spec_drinks, spec_healed, ItemCollectionSystem, ItemDropSystem, PotionUseSystem,
};
use crate::map::GameMap;
use crate::map_indexing_system::MapIndexingSystem;
use crate::melee_combat_system::MeleeCombatSystem;
use crate::monster_ai_system::MonsterAI;
use crate::player::{player_input, VirtualKeyCode};
use crate::spawner;
use crate::visibility_system::VisibilitySystem;
use crate::world::World;

verus! {

/// The run-state machine's discriminator: which systems run this tick
/// and whether input is read.
#[derive(Clone, Copy, PartialEq, Eq, Structural, Debug)]
pub enum RunState {
    AwaitingInput,
    PreRun,
    PlayerTurn,
    MonsterTurn,
    Examining,
    ShowInventory,
    ShowDropItem,
}

/// The whole game: the entity store with its resources, driven one
/// tick at a time.
pub struct State {
    pub ecs: World,
}

/// What one full system pass leaves of an entity's combat stats: the
/// damage queued at the start of the pass is applied first (melee
/// resolved in the same pass only queues damage for the next one),
/// then any potion the entity drinks heals it, clamped at its maximum.
pub open spec fn spec_pass_stats(w: World, e: int) -> Option<CombatStats> {
    let damaged = if w.combat_stats@[e] is Some && w.suffer_damage@[e] is Some {
        Some(spec_after_damage(w.combat_stats@[e]->0, w.suffer_damage@[e]->0.amount as int))
    } else {
        w.combat_stats@[e]
    };
    if spec_drinks(w, e) {
        Some(
            spec_healed(
                damaged->0,
                w.potions@[w.wants_drink@[e]->0.potion as int]->0.heal_amount as int,
            ),
        )
    } else {
        damaged
    }
}

/// An uncontended pickup: some pending intent names item `i`, and `i`
/// is a plain item slot no other intent or system touches this pass:
/// not a monster or player, without combat stats, and named by no drop
/// or drink intent.
pub open spec fn spec_plain_pickup(w: World, i: int) -> bool {
    &&& 0 <= i < w.n()
    &&& (exists|a: int|
        0 <= a < w.n() && #[trigger] spec_collects(w, a) && w.wants_pickup@[a]->0.item == i)
    &&& w.monsters@[i] is None
    &&& w.players@[i] is None
    &&& w.combat_stats@[i] is None
    &&& (forall|e: int|
        0 <= e < w.n() ==> !((#[trigger] w.wants_drop@[e]) is Some && w.wants_drop@[e]->0.item
            == i))
    &&& (forall|e: int|
        0 <= e < w.n() ==> !((#[trigger] w.wants_drink@[e]) is Some
            && w.wants_drink@[e]->0.potion == i))
}

/// No entity is marked for deletion; ticks start and end this way.
pub open spec fn spec_no_pending(w: World) -> bool {
    forall|e: int| 0 <= e < w.n() ==> !(#[trigger] w.pending_delete@[e])
}

/// No intent component of any kind remains in the store.
pub open spec fn spec_intents_drained(w: World) -> bool {
    &&& forall|e: int| 0 <= e < w.n() ==> (#[trigger] w.wants_to_melee@[e]) is None
    &&& forall|e: int| 0 <= e < w.n() ==> (#[trigger] w.wants_pickup@[e]) is None
    &&& forall|e: int| 0 <= e < w.n() ==> (#[trigger] w.wants_drink@[e]) is None
    &&& forall|e: int| 0 <= e < w.n() ==> (#[trigger] w.wants_drop@[e]) is None
}

impl State {
    /// One full system pass: visibility, monster AI, map indexing,
    /// damage, melee, then the three inventory passes, and finally the
    /// commit of deferred deletes. Damage runs before melee on
    /// purpose: the damage applied in a tick is the damage queued in
    /// the previous one.
    pub fn run_systems(&mut self)
        requires
            old(self).ecs.wf(),
            old(self).ecs.has_player(),
            spec_no_pending(old(self).ecs),
        ensures
            final(self).ecs.wf(),
            final(self).ecs.has_player(),
            spec_no_pending(final(self).ecs),
            final(self).ecs.n() == old(self).ecs.n(),
            // Reveal monotonicity.
            forall|i: int|
                0 <= i < 3440 && old(self).ecs.map.revealed_tiles@[i] ==> (#[trigger] final(self).ecs.map.revealed_tiles@[i]),
            // Intent drain: a system pass consumes every intent.
            spec_intents_drained(final(self).ecs),
            // The one-tick damage latency, stated at pass level: every
            // non-potion entity's stats come out exactly as the damage
            // queued at the start of the pass, then any drunk potion,
            // dictate. Melee resolved in this pass only queues damage.
            forall|e: int|
                0 <= e < old(self).ecs.n() && old(self).ecs.potions@[e] is None ==> (#[trigger] final(self).ecs.combat_stats@[e]) == spec_pass_stats(old(self).ecs, e),
            // An entity without combat stats never gains them.
            forall|e: int|
                0 <= e < old(self).ecs.n() && old(self).ecs.combat_stats@[e] is None ==> (#[trigger] final(self).ecs.combat_stats@[e]) is None,
            // A pending uncontended pickup is executed by the pass: the
            // item leaves the ground and sits in a backpack.
            forall|i: int, a: int|
                #![trigger final(self).ecs.positions@[i], old(self).ecs.wants_pickup@[a]]
                0 <= i < old(self).ecs.n() && 0 <= a < old(self).ecs.n() && spec_collects(
                    old(self).ecs,
                    a,
                ) && old(self).ecs.wants_pickup@[a]->0.item == i && spec_plain_pickup(
                    old(self).ecs,
                    i,
                ) ==> final(self).ecs.positions@[i] is None && final(self).ecs.in_backpack@[i] is Some,
            // Outside the monster turn, a pass that starts with no
            // queued melee leaves no damage event behind either.
            (old(self).ecs.run_state != RunState::MonsterTurn && (forall|e: int|
                0 <= e < old(self).ecs.n() ==> (#[trigger] old(self).ecs.wants_to_melee@[e]) is None))
                ==> forall|e: int|
                0 <= e < final(self).ecs.n() ==> (#[trigger] final(self).ecs.suffer_damage@[e]) is None,
            // The log only grows.
            final(self).ecs.log.entries@.len() >= old(self).ecs.log.entries@.len(),
            forall|i: int|
                0 <= i < old(self).ecs.log.entries@.len() ==> (#[trigger] final(self).ecs.log.entries@[i]) == old(self).ecs.log.entries@[i],
            final(self).ecs.run_state == old(self).ecs.run_state,
            final(self).ecs.player_entity == old(self).ecs.player_entity,
    {
        VisibilitySystem::run(&mut self.ecs);
        MonsterAI::run(&mut self.ecs);
        MapIndexingSystem::run(&mut self.ecs);
        DamageSystem::run(&mut self.ecs);
        MeleeCombatSystem::run(&mut self.ecs);
        ItemCollectionSystem::run(&mut self.ecs);
        PotionUseSystem::run(&mut self.ecs);
        ItemDropSystem::run(&mut self.ecs);
        self.ecs.maintain();
    }

    /// One tick of the run-state machine: run the systems the current
    /// state asks for, consume at most one key, move to the next
    /// state, and reap the dead.
    pub fn tick(&mut self, key: Option<VirtualKeyCode>)
        requires
            old(self).ecs.wf(),
            old(self).ecs.has_player(),
            spec_no_pending(old(self).ecs),
        ensures
            final(self).ecs.wf(),
            final(self).ecs.has_player(),
            spec_no_pending(final(self).ecs),
            final(self).ecs.n() == old(self).ecs.n(),
            // Reveal monotonicity across the whole tick.
            forall|i: int|
                0 <= i < 3440 && old(self).ecs.map.revealed_tiles@[i] ==> (#[trigger] final(self).ecs.map.revealed_tiles@[i]),
            // The run-state machine's transitions.
            old(self).ecs.run_state == RunState::PreRun ==> final(self).ecs.run_state
                == RunState::AwaitingInput,
            old(self).ecs.run_state == RunState::PlayerTurn ==> final(self).ecs.run_state
                == RunState::MonsterTurn,
            old(self).ecs.run_state == RunState::MonsterTurn ==> final(self).ecs.run_state
                == RunState::AwaitingInput,
            (old(self).ecs.run_state == RunState::AwaitingInput || old(self).ecs.run_state
                == RunState::Examining) && key is None ==> final(self).ecs.run_state == old(self).ecs.run_state,
            // A tick that reads no input leaves no intent behind.
            (old(self).ecs.run_state == RunState::PreRun || old(self).ecs.run_state
                == RunState::PlayerTurn || old(self).ecs.run_state == RunState::MonsterTurn)
                ==> spec_intents_drained(final(self).ecs),
            // Away from the menus a tick applies the pass to the world:
            // the stats of every surviving non-potion entity come out as
            // queued damage then any drunk potion dictate, and pending
            // uncontended pickups land in a backpack.
            (old(self).ecs.run_state != RunState::ShowInventory && old(self).ecs.run_state
                != RunState::ShowDropItem) ==> forall|e: int|
                0 <= e < old(self).ecs.n() && old(self).ecs.potions@[e] is None && (#[trigger] final(self).ecs.alive@[e]) ==> final(self).ecs.combat_stats@[e] == spec_pass_stats(
                    old(self).ecs,
                    e,
                ),
            (old(self).ecs.run_state != RunState::ShowInventory && old(self).ecs.run_state
                != RunState::ShowDropItem) ==> forall|i: int, a: int|
                #![trigger final(self).ecs.positions@[i], old(self).ecs.wants_pickup@[a]]
                0 <= i < old(self).ecs.n() && 0 <= a < old(self).ecs.n() && spec_collects(
                    old(self).ecs,
                    a,
                ) && old(self).ecs.wants_pickup@[a]->0.item == i && spec_plain_pickup(
                    old(self).ecs,
                    i,
                ) ==> final(self).ecs.positions@[i] is None && final(self).ecs.in_backpack@[i] is Some,
            // Off the combat path a tick also drains damage events: the
            // one-tick damage latency exists only around monster turns.
            ((old(self).ecs.run_state == RunState::PreRun || old(self).ecs.run_state
                == RunState::PlayerTurn) && (forall|e: int|
                0 <= e < old(self).ecs.n() ==> (#[trigger] old(self).ecs.wants_to_melee@[e]) is None))
                ==> forall|e: int|
                0 <= e < final(self).ecs.n() ==> (#[trigger] final(self).ecs.suffer_damage@[e]) is None,
            // The menus react to the key alone.
            old(self).ecs.run_state == RunState::ShowInventory ==> final(self).ecs.run_state == (
            match spec_menu_result(old(self).ecs, key) {
                ItemMenuResult::Cancel => RunState::AwaitingInput,
                ItemMenuResult::NoResponse => RunState::ShowInventory,
                ItemMenuResult::Selected(_) => RunState::MonsterTurn,
            }),
            old(self).ecs.run_state == RunState::ShowDropItem ==> final(self).ecs.run_state == (
            match spec_menu_result(old(self).ecs, key) {
                ItemMenuResult::Cancel => RunState::AwaitingInput,
                ItemMenuResult::NoResponse => RunState::ShowDropItem,
                ItemMenuResult::Selected(_) => RunState::MonsterTurn,
            }),
    {
        let current = self.ecs.run_state;
        let next: RunState;
        match current {
            RunState::PreRun => {
                self.run_systems();
                next = RunState::AwaitingInput;
            },
            RunState::AwaitingInput | RunState::Examining => {
                self.run_systems();
                next = player_input(self, key);
            },
            RunState::PlayerTurn => {
                self.run_systems();
                next = RunState::MonsterTurn;
            },
            RunState::MonsterTurn => {
                self.run_systems();
                next = RunState::AwaitingInput;
            },
            RunState::ShowInventory => {
                let result = show_inventory(&*self, key);
                match result {
                    ItemMenuResult::Cancel => {
                        next = RunState::AwaitingInput;
                    },
                    ItemMenuResult::NoResponse => {
                        next = RunState::ShowInventory;
                    },
                    ItemMenuResult::Selected(item) => {
                        let pe = self.ecs.player_entity;
                        self.ecs.wants_drink[pe] = Some(WantsToDrinkPotion { potion: item });
                        next = RunState::MonsterTurn;
                    },
                }
            },
            RunState::ShowDropItem => {
                let result = show_drop_item(&*self, key);
                match result {
                    ItemMenuResult::Cancel => {
                        next = RunState::AwaitingInput;
                    },
                    ItemMenuResult::NoResponse => {
                        next = RunState::ShowDropItem;
                    },
                    ItemMenuResult::Selected(item) => {
                        let pe = self.ecs.player_entity;
                        self.ecs.wants_drop[pe] = Some(WantsToDropItem { item });
                        next = RunState::MonsterTurn;
                    },
                }
            },
        }
        self.ecs.run_state = next;
        DamageSystem::delete_the_dead(&mut self.ecs);
    }

    /// A fresh deterministic game: generate the dungeon from the seed,
    /// put the player at the first room's centre, fill the other rooms
    /// with monsters and potions, and start the machine before its
    /// first pass.
    pub fn new_game(seed: u64) -> (gs: State)
        ensures
            gs.ecs.wf(),
            gs.ecs.has_player(),
            spec_no_pending(gs.ecs),
            gs.ecs.run_state == RunState::PreRun,
            gs.ecs.map.rooms@.len() >= 1,
            // The dungeon comes out connected: every room centre can be
            // walked to from the first room's centre over floor tiles.
            forall|k: int|
                0 <= k < gs.ecs.map.rooms@.len() ==> crate::map::spec_reachable(
                    gs.ecs.map.tiles@,
                    gs.ecs.map.rooms@[0].spec_center(),
                    (#[trigger] gs.ecs.map.rooms@[k]).spec_center(),
                ),
    {
        let mut world = World::new(seed);
        let map = GameMap::new_map_rooms_and_corridors(&mut world.rng);
        let first = map.rooms[0];
        proof {
            crate::map::lemma_center_in_room(first);
        }
        let (player_x, player_y) = first.center();
        let player_entity = spawner::player(&mut world, player_x, player_y);
        world.map = map;
        let mut r: usize = 1;
        while r < world.map.rooms.len()
            invariant
                world.wf(),
                1 <= r,
                r <= world.map.rooms@.len(),
                world.map.rooms@.len() <= 30,
                world.n() <= 1 + 6 * r,
                world.alive@[player_entity as int],
                world.players@[player_entity as int] is Some,
                player_entity < world.n(),
                spec_no_pending(world),
                forall|k: int|
                    0 <= k < world.map.rooms@.len() ==> crate::map::spec_room_in_bounds(
                        #[trigger] world.map.rooms@[k],
                    ),
                forall|k: int|
                    0 <= k < world.map.rooms@.len() ==> crate::map::spec_reachable(
                        world.map.tiles@,
                        world.map.rooms@[0].spec_center(),
                        (#[trigger] world.map.rooms@[k]).spec_center(),
                    ),
                world.player_entity == 0,
                world.run_state == RunState::PreRun,
            decreases world.map.rooms@.len() - r,
        {
            let room = world.map.rooms[r];
            spawner::populate_room(&mut world, &room);
            r = r + 1;
        }
        world.player_entity = player_entity;
        world.player_pos = Point { x: player_x, y: player_y };
        world.run_state = RunState::PreRun;
        let mut log = GameLog { entries: Vec::new() };
        log.entries.push(String::from_str("Welcome to Rustlike"));
        world.log = log;
        State { ecs: world }
    }
}

} // verus!
