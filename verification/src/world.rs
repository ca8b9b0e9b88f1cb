use vstd::prelude::*;
use crate::components::{
    BlocksTile, CombatStats, Cursor, InBackpack, Item, Monster, Name, Player, Point, Position,
    Potion, Renderable, SufferDamage, Viewshed, WantsToDrinkPotion, WantsToDropItem, WantsToMelee,
    WantsToPickupItem, spec_stats_ok,
};
use crate::gamelog::GameLog;
use crate::map::GameMap;
use crate::rng::RandomSource;
use crate::state::RunState;

verus! {

/// The entity store: one sparse column per component, keyed by entity
/// id, together with the world's singleton resources. An entity exists
/// while `alive` holds; deletion requested through `delete_entity` is
/// deferred until `maintain` commits it.
pub struct World {
    pub alive: Vec<bool>,
    pub pending_delete: Vec<bool>,
    pub positions: Vec<Option<Position>>,
    pub renderables: Vec<Option<Renderable>>,
    pub viewsheds: Vec<Option<Viewshed>>,
    pub players: Vec<Option<Player>>,
    pub monsters: Vec<Option<Monster>>,
    pub names: Vec<Option<Name>>,
    pub blocks_tile: Vec<Option<BlocksTile>>,
    pub combat_stats: Vec<Option<CombatStats>>,
    pub wants_to_melee: Vec<Option<WantsToMelee>>,
    pub suffer_damage: Vec<Option<SufferDamage>>,
    pub items: Vec<Option<Item>>,
    pub potions: Vec<Option<Potion>>,
    pub in_backpack: Vec<Option<InBackpack>>,
    pub wants_pickup: Vec<Option<WantsToPickupItem>>,
    pub wants_drink: Vec<Option<WantsToDrinkPotion>>,
    pub wants_drop: Vec<Option<WantsToDropItem>>,
    pub map: GameMap,
    pub run_state: RunState,
    pub player_entity: usize,
    pub player_pos: Point,
    pub cursor: Cursor,
    pub log: GameLog,
    pub rng: RandomSource,
}

impl World {
    /// The number of entity slots ever created.
    pub open spec fn n(self) -> int {
        self.alive@.len() as int
    }

    /// Every component column has one slot per entity.
    pub open spec fn lens_ok(self) -> bool {
        &&& self.pending_delete@.len() == self.n()
        &&& self.positions@.len() == self.n()
        &&& self.renderables@.len() == self.n()
        &&& self.viewsheds@.len() == self.n()
        &&& self.players@.len() == self.n()
        &&& self.monsters@.len() == self.n()
        &&& self.names@.len() == self.n()
        &&& self.blocks_tile@.len() == self.n()
        &&& self.combat_stats@.len() == self.n()
        &&& self.wants_to_melee@.len() == self.n()
        &&& self.suffer_damage@.len() == self.n()
        &&& self.items@.len() == self.n()
        &&& self.potions@.len() == self.n()
        &&& self.in_backpack@.len() == self.n()
        &&& self.wants_pickup@.len() == self.n()
        &&& self.wants_drink@.len() == self.n()
        &&& self.wants_drop@.len() == self.n()
    }

    /// Positions stay on the grid, combat values stay in arithmetic
    /// range, potions heal by a non-negative bounded amount, and queued
    /// damage is non-negative.
    pub open spec fn values_ok(self) -> bool {
        &&& forall|e: int|
            0 <= e < self.n() && (#[trigger] self.positions@[e]) is Some ==> {
                let p = self.positions@[e]->0;
                0 <= p.x < 80 && 0 <= p.y < 43
            }
        &&& forall|e: int|
            0 <= e < self.n() && (#[trigger] self.combat_stats@[e]) is Some ==> spec_stats_ok(
                self.combat_stats@[e]->0,
            )
        &&& forall|e: int|
            0 <= e < self.n() && (#[trigger] self.potions@[e]) is Some ==> 0 <= self.potions@[e]->0.heal_amount
                <= 1000000
        &&& forall|e: int|
            0 <= e < self.n() && (#[trigger] self.suffer_damage@[e]) is Some ==> 0
                <= self.suffer_damage@[e]->0.amount
        &&& forall|e: int|
            0 <= e < self.n() && (#[trigger] self.players@[e]) is Some ==> self.potions@[e] is None
        &&& forall|e1: int, e2: int|
            0 <= e1 < self.n() && 0 <= e2 < self.n() && (#[trigger] self.players@[e1]) is Some && (
            #[trigger] self.players@[e2]) is Some ==> e1 == e2
        &&& 0 <= self.player_pos.x < 80
        &&& 0 <= self.player_pos.y < 43
    }

    pub open spec fn wf(self) -> bool {
        &&& self.lens_ok()
        &&& self.values_ok()
        &&& self.map.wf()
    }

    /// A world with a live player entity.
    pub open spec fn has_player(self) -> bool {
        &&& self.player_entity < self.n()
        &&& self.alive@[self.player_entity as int]
        &&& self.players@[self.player_entity as int] is Some
    }

    /// The singleton resources the systems do not touch through the
    /// component columns.
    pub open spec fn same_resources(self, other: World) -> bool {
        &&& self.map == other.map
        &&& self.run_state == other.run_state
        &&& self.player_entity == other.player_entity
        &&& self.player_pos == other.player_pos
        &&& self.cursor == other.cursor
        &&& self.log.entries@ == other.log.entries@
        &&& self.rng.state == other.rng.state
    }

    /// An empty world: no entities, an all-wall map, the run-state
    /// machine at its start, and the random source seeded as given.
    pub fn new(seed: u64) -> (w: World)
        ensures
            w.wf(),
            w.n() == 0,
            w.run_state == RunState::PreRun,
            w.log.entries@.len() == 0,
            w.rng.state == seed | 1u64,
            w.player_entity == 0,
    {
        World {
            alive: Vec::new(),
            pending_delete: Vec::new(),
            positions: Vec::new(),
            renderables: Vec::new(),
            viewsheds: Vec::new(),
            players: Vec::new(),
            monsters: Vec::new(),
            names: Vec::new(),
            blocks_tile: Vec::new(),
            combat_stats: Vec::new(),
            wants_to_melee: Vec::new(),
            suffer_damage: Vec::new(),
            items: Vec::new(),
            potions: Vec::new(),
            in_backpack: Vec::new(),
            wants_pickup: Vec::new(),
            wants_drink: Vec::new(),
            wants_drop: Vec::new(),
            map: GameMap::new(),
            run_state: RunState::PreRun,
            player_entity: 0,
            player_pos: Point { x: 0, y: 0 },
            cursor: Cursor { x: 0, y: 0 },
            log: GameLog { entries: Vec::new() },
            rng: RandomSource::seeded(seed),
        }
    }

    /// Add a fresh entity with no components; its id is returned.
    pub fn create_entity(&mut self) -> (e: usize)
        requires
            old(self).wf(),
            old(self).n() < 1000000,
        ensures
            final(self).wf(),
            e == old(self).n(),
            final(self).n() == old(self).n() + 1,
            final(self).alive@ == old(self).alive@.push(true),
            final(self).pending_delete@ == old(self).pending_delete@.push(false),
            final(self).positions@ == old(self).positions@.push(None),
            final(self).renderables@ == old(self).renderables@.push(None),
            final(self).viewsheds@ == old(self).viewsheds@.push(None),
            final(self).players@ == old(self).players@.push(None),
            final(self).monsters@ == old(self).monsters@.push(None),
            final(self).names@ == old(self).names@.push(None),
            final(self).blocks_tile@ == old(self).blocks_tile@.push(None),
            final(self).combat_stats@ == old(self).combat_stats@.push(None),
            final(self).wants_to_melee@ == old(self).wants_to_melee@.push(None),
            final(self).suffer_damage@ == old(self).suffer_damage@.push(None),
            final(self).items@ == old(self).items@.push(None),
            final(self).potions@ == old(self).potions@.push(None),
            final(self).in_backpack@ == old(self).in_backpack@.push(None),
            final(self).wants_pickup@ == old(self).wants_pickup@.push(None),
            final(self).wants_drink@ == old(self).wants_drink@.push(None),
            final(self).wants_drop@ == old(self).wants_drop@.push(None),
            final(self).same_resources(*old(self)),
    {
        let e = self.alive.len();
        self.alive.push(true);
        self.pending_delete.push(false);
        self.positions.push(None);
        self.renderables.push(None);
        self.viewsheds.push(None);
        self.players.push(None);
        self.monsters.push(None);
        self.names.push(None);
        self.blocks_tile.push(None);
        self.combat_stats.push(None);
        self.wants_to_melee.push(None);
        self.suffer_damage.push(None);
        self.items.push(None);
        self.potions.push(None);
        self.in_backpack.push(None);
        self.wants_pickup.push(None);
        self.wants_drink.push(None);
        self.wants_drop.push(None);
        e
    }

    /// Request deletion of an entity; it stays alive until `maintain`.
    pub fn delete_entity(&mut self, e: usize)
        requires
            old(self).wf(),
            e < old(self).n(),
        ensures
            final(self).wf(),
            final(self).pending_delete@ == old(self).pending_delete@.update(e as int, true),
            final(self).alive@ == old(self).alive@,
            final(self).positions@ == old(self).positions@,
            final(self).renderables@ == old(self).renderables@,
            final(self).viewsheds@ == old(self).viewsheds@,
            final(self).players@ == old(self).players@,
            final(self).monsters@ == old(self).monsters@,
            final(self).names@ == old(self).names@,
            final(self).blocks_tile@ == old(self).blocks_tile@,
            final(self).combat_stats@ == old(self).combat_stats@,
            final(self).wants_to_melee@ == old(self).wants_to_melee@,
            final(self).suffer_damage@ == old(self).suffer_damage@,
            final(self).items@ == old(self).items@,
            final(self).potions@ == old(self).potions@,
            final(self).in_backpack@ == old(self).in_backpack@,
            final(self).wants_pickup@ == old(self).wants_pickup@,
            final(self).wants_drink@ == old(self).wants_drink@,
            final(self).wants_drop@ == old(self).wants_drop@,
            final(self).same_resources(*old(self)),
    {
        self.pending_delete[e] = true;
    }

    /// Remove one entity and all its components from the store.
    pub(crate) fn purge(&mut self, e: usize)
        requires
            old(self).wf(),
            e < old(self).n(),
        ensures
            final(self).wf(),
            final(self).n() == old(self).n(),
            final(self).alive@ == old(self).alive@.update(e as int, false),
            final(self).pending_delete@ == old(self).pending_delete@,
            final(self).positions@ == old(self).positions@.update(e as int, None),
            final(self).renderables@ == old(self).renderables@.update(e as int, None),
            final(self).viewsheds@ == old(self).viewsheds@.update(e as int, None),
            final(self).players@ == old(self).players@,
            final(self).monsters@ == old(self).monsters@.update(e as int, None),
            final(self).names@ == old(self).names@.update(e as int, None),
            final(self).blocks_tile@ == old(self).blocks_tile@.update(e as int, None),
            final(self).combat_stats@ == old(self).combat_stats@.update(e as int, None),
            final(self).wants_to_melee@ == old(self).wants_to_melee@.update(e as int, None),
            final(self).suffer_damage@ == old(self).suffer_damage@.update(e as int, None),
            final(self).items@ == old(self).items@.update(e as int, None),
            final(self).potions@ == old(self).potions@.update(e as int, None),
            final(self).in_backpack@ == old(self).in_backpack@.update(e as int, None),
            final(self).wants_pickup@ == old(self).wants_pickup@.update(e as int, None),
            final(self).wants_drink@ == old(self).wants_drink@.update(e as int, None),
            final(self).wants_drop@ == old(self).wants_drop@.update(e as int, None),
            final(self).same_resources(*old(self)),
    {
        self.alive[e] = false;
        self.positions[e] = None;
        self.renderables[e] = None;
        self.viewsheds[e] = None;
        self.monsters[e] = None;
        self.names[e] = None;
        self.blocks_tile[e] = None;
        self.combat_stats[e] = None;
        self.wants_to_melee[e] = None;
        self.suffer_damage[e] = None;
        self.items[e] = None;
        self.potions[e] = None;
        self.in_backpack[e] = None;
        self.wants_pickup[e] = None;
        self.wants_drink[e] = None;
        self.wants_drop[e] = None;
    }

    /// Commit every deferred delete: the marked entities die and lose
    /// all their components; everything else is untouched.
    pub fn maintain(&mut self)
        requires
            old(self).wf(),
        ensures
            final(self).wf(),
            final(self).n() == old(self).n(),
            forall|e: int|
                0 <= e < old(self).n() ==> (#[trigger] final(self).alive@[e]) == (old(self).alive@[e] && !old(self).pending_delete@[e]),
            forall|e: int| 0 <= e < old(self).n() ==> !(#[trigger] final(self).pending_delete@[e]),
            forall|e: int|
                0 <= e < old(self).n() && !old(self).pending_delete@[e] ==> (#[trigger] final(self).positions@[e]) == old(self).positions@[e],
            forall|e: int|
                0 <= e < old(self).n() && !old(self).pending_delete@[e] ==> (#[trigger] final(self).renderables@[e]) == old(self).renderables@[e],
            forall|e: int|
                0 <= e < old(self).n() && !old(self).pending_delete@[e] ==> (#[trigger] final(self).viewsheds@[e]) == old(self).viewsheds@[e],
            forall|e: int|
                0 <= e < old(self).n() && !old(self).pending_delete@[e] ==> (#[trigger] final(self).monsters@[e]) == old(self).monsters@[e],
            forall|e: int|
                0 <= e < old(self).n() && !old(self).pending_delete@[e] ==> (#[trigger] final(self).names@[e]) == old(self).names@[e],
            forall|e: int|
                0 <= e < old(self).n() && !old(self).pending_delete@[e] ==> (#[trigger] final(self).blocks_tile@[e]) == old(self).blocks_tile@[e],
            forall|e: int|
                0 <= e < old(self).n() && !old(self).pending_delete@[e] ==> (#[trigger] final(self).combat_stats@[e]) == old(self).combat_stats@[e],
            forall|e: int|
                0 <= e < old(self).n() && !old(self).pending_delete@[e] ==> (#[trigger] final(self).wants_to_melee@[e]) == old(self).wants_to_melee@[e],
            forall|e: int|
                0 <= e < old(self).n() && !old(self).pending_delete@[e] ==> (#[trigger] final(self).suffer_damage@[e]) == old(self).suffer_damage@[e],
            forall|e: int|
                0 <= e < old(self).n() && !old(self).pending_delete@[e] ==> (#[trigger] final(self).items@[e]) == old(self).items@[e],
            forall|e: int|
                0 <= e < old(self).n() && !old(self).pending_delete@[e] ==> (#[trigger] final(self).potions@[e]) == old(self).potions@[e],
            forall|e: int|
                0 <= e < old(self).n() && !old(self).pending_delete@[e] ==> (#[trigger] final(self).in_backpack@[e]) == old(self).in_backpack@[e],
            forall|e: int|
                0 <= e < old(self).n() && !old(self).pending_delete@[e] ==> (#[trigger] final(self).wants_pickup@[e]) == old(self).wants_pickup@[e],
            forall|e: int|
                0 <= e < old(self).n() && !old(self).pending_delete@[e] ==> (#[trigger] final(self).wants_drink@[e]) == old(self).wants_drink@[e],
            forall|e: int|
                0 <= e < old(self).n() && !old(self).pending_delete@[e] ==> (#[trigger] final(self).wants_drop@[e]) == old(self).wants_drop@[e],
            forall|e: int|
                0 <= e < old(self).n() && old(self).pending_delete@[e] ==> (#[trigger] final(self).positions@[e]) is None,
            forall|e: int|
                0 <= e < old(self).n() && old(self).pending_delete@[e] ==> (#[trigger] final(self).viewsheds@[e]) is None,
            forall|e: int|
                0 <= e < old(self).n() && old(self).pending_delete@[e] ==> (#[trigger] final(self).monsters@[e]) is None,
            forall|e: int|
                0 <= e < old(self).n() && old(self).pending_delete@[e] ==> (#[trigger] final(self).blocks_tile@[e]) is None,
            forall|e: int|
                0 <= e < old(self).n() && old(self).pending_delete@[e] ==> (#[trigger] final(self).combat_stats@[e]) is None,
            forall|e: int|
                0 <= e < old(self).n() && old(self).pending_delete@[e] ==> (#[trigger] final(self).wants_to_melee@[e]) is None,
            forall|e: int|
                0 <= e < old(self).n() && old(self).pending_delete@[e] ==> (#[trigger] final(self).suffer_damage@[e]) is None,
            forall|e: int|
                0 <= e < old(self).n() && old(self).pending_delete@[e] ==> (#[trigger] final(self).items@[e]) is None,
            forall|e: int|
                0 <= e < old(self).n() && old(self).pending_delete@[e] ==> (#[trigger] final(self).potions@[e]) is None,
            forall|e: int|
                0 <= e < old(self).n() && old(self).pending_delete@[e] ==> (#[trigger] final(self).in_backpack@[e]) is None,
            forall|e: int|
                0 <= e < old(self).n() && old(self).pending_delete@[e] ==> (#[trigger] final(self).wants_pickup@[e]) is None,
            forall|e: int|
                0 <= e < old(self).n() && old(self).pending_delete@[e] ==> (#[trigger] final(self).wants_drink@[e]) is None,
            forall|e: int|
                0 <= e < old(self).n() && old(self).pending_delete@[e] ==> (#[trigger] final(self).wants_drop@[e]) is None,
            final(self).players@ == old(self).players@,
            final(self).same_resources(*old(self)),
    {
        let mut e: usize = 0;
        let n = self.alive.len();
        while e < n
            invariant
                self.wf(),
                self.n() == old(self).n(),
                n == old(self).n(),
                e <= n,
                forall|i: int|
                    0 <= i < e ==> (#[trigger] self.alive@[i]) == (old(self).alive@[i] && !old(self).pending_delete@[i]),
                forall|i: int| 0 <= i < e ==> !(#[trigger] self.pending_delete@[i]),
                forall|i: int| e <= i < n ==> (#[trigger] self.alive@[i]) == old(self).alive@[i],
                forall|i: int|
                    e <= i < n ==> (#[trigger] self.pending_delete@[i]) == old(self).pending_delete@[i],
                forall|i: int|
                    0 <= i < n && !(0 <= i < e && old(self).pending_delete@[i]) ==> (#[trigger] self.positions@[i]) == old(self).positions@[i],
                forall|i: int|
                    0 <= i < n && !(0 <= i < e && old(self).pending_delete@[i]) ==> (#[trigger] self.renderables@[i]) == old(self).renderables@[i],
                forall|i: int|
                    0 <= i < n && !(0 <= i < e && old(self).pending_delete@[i]) ==> (#[trigger] self.viewsheds@[i]) == old(self).viewsheds@[i],
                forall|i: int|
                    0 <= i < n && !(0 <= i < e && old(self).pending_delete@[i]) ==> (#[trigger] self.monsters@[i]) == old(self).monsters@[i],
                forall|i: int|
                    0 <= i < n && !(0 <= i < e && old(self).pending_delete@[i]) ==> (#[trigger] self.names@[i]) == old(self).names@[i],
                forall|i: int|
                    0 <= i < n && !(0 <= i < e && old(self).pending_delete@[i]) ==> (#[trigger] self.blocks_tile@[i]) == old(self).blocks_tile@[i],
                forall|i: int|
                    0 <= i < n && !(0 <= i < e && old(self).pending_delete@[i]) ==> (#[trigger] self.combat_stats@[i]) == old(self).combat_stats@[i],
                forall|i: int|
                    0 <= i < n && !(0 <= i < e && old(self).pending_delete@[i]) ==> (#[trigger] self.wants_to_melee@[i]) == old(self).wants_to_melee@[i],
                forall|i: int|
                    0 <= i < n && !(0 <= i < e && old(self).pending_delete@[i]) ==> (#[trigger] self.suffer_damage@[i]) == old(self).suffer_damage@[i],
                forall|i: int|
                    0 <= i < n && !(0 <= i < e && old(self).pending_delete@[i]) ==> (#[trigger] self.items@[i]) == old(self).items@[i],
                forall|i: int|
                    0 <= i < n && !(0 <= i < e && old(self).pending_delete@[i]) ==> (#[trigger] self.potions@[i]) == old(self).potions@[i],
                forall|i: int|
                    0 <= i < n && !(0 <= i < e && old(self).pending_delete@[i]) ==> (#[trigger] self.in_backpack@[i]) == old(self).in_backpack@[i],
                forall|i: int|
                    0 <= i < n && !(0 <= i < e && old(self).pending_delete@[i]) ==> (#[trigger] self.wants_pickup@[i]) == old(self).wants_pickup@[i],
                forall|i: int|
                    0 <= i < n && !(0 <= i < e && old(self).pending_delete@[i]) ==> (#[trigger] self.wants_drink@[i]) == old(self).wants_drink@[i],
                forall|i: int|
                    0 <= i < n && !(0 <= i < e && old(self).pending_delete@[i]) ==> (#[trigger] self.wants_drop@[i]) == old(self).wants_drop@[i],
                forall|i: int|
                    0 <= i < e && old(self).pending_delete@[i] ==> (#[trigger] self.positions@[i]) is None,
                forall|i: int|
                    0 <= i < e && old(self).pending_delete@[i] ==> (#[trigger] self.viewsheds@[i]) is None,
                forall|i: int|
                    0 <= i < e && old(self).pending_delete@[i] ==> (#[trigger] self.monsters@[i]) is None,
                forall|i: int|
                    0 <= i < e && old(self).pending_delete@[i] ==> (#[trigger] self.blocks_tile@[i]) is None,
                forall|i: int|
                    0 <= i < e && old(self).pending_delete@[i] ==> (#[trigger] self.combat_stats@[i]) is None,
                forall|i: int|
                    0 <= i < e && old(self).pending_delete@[i] ==> (#[trigger] self.wants_to_melee@[i]) is None,
                forall|i: int|
                    0 <= i < e && old(self).pending_delete@[i] ==> (#[trigger] self.suffer_damage@[i]) is None,
                forall|i: int|
                    0 <= i < e && old(self).pending_delete@[i] ==> (#[trigger] self.items@[i]) is None,
                forall|i: int|
                    0 <= i < e && old(self).pending_delete@[i] ==> (#[trigger] self.potions@[i]) is None,
                forall|i: int|
                    0 <= i < e && old(self).pending_delete@[i] ==> (#[trigger] self.in_backpack@[i]) is None,
                forall|i: int|
                    0 <= i < e && old(self).pending_delete@[i] ==> (#[trigger] self.wants_pickup@[i]) is None,
                forall|i: int|
                    0 <= i < e && old(self).pending_delete@[i] ==> (#[trigger] self.wants_drink@[i]) is None,
                forall|i: int|
                    0 <= i < e && old(self).pending_delete@[i] ==> (#[trigger] self.wants_drop@[i]) is None,
                self.players@ == old(self).players@,
                self.same_resources(*old(self)),
            decreases n - e,
        {
            proof {
                assert(self.positions@[e as int] == old(self).positions@[e as int] || old(self).pending_delete@[e as int]);
            }
            if self.pending_delete[e] {
                self.purge(e);
            }
            self.pending_delete[e] = false;
            e = e + 1;
        }
    }
}

/// Grid closure: in a well-formed world every positioned entity
/// stands on the grid, and every tick keeps the world well-formed.
pub proof fn lemma_grid_closure(w: World, e: int)
    requires
        w.wf(),
        0 <= e < w.n(),
        w.positions@[e] is Some,
    ensures
        0 <= w.positions@[e]->0.x < 80,
        0 <= w.positions@[e]->0.y < 43,
{
}

} // verus!
