use vstd::prelude::*;

verus! {

/// A grid point; also the type of the player-position and cursor
/// resources.
#[derive(Clone, Copy, PartialEq, Eq, Structural, Debug)]
pub struct Point {
    pub x: i32,
    pub y: i32,
}

#[derive(Clone, Copy, PartialEq, Eq, Structural, Debug)]
pub struct Position {
    pub x: i32,
    pub y: i32,
}

/// A colour as 8-bit channels; the external renderer maps these onto
/// whatever scale it draws with.
#[derive(Clone, Copy, PartialEq, Eq, Structural, Debug)]
pub struct Rgb {
    pub r: u8,
    pub g: u8,
    pub b: u8,
}

/// Draw data, consumed only by the external renderer.
#[derive(Clone, Copy, PartialEq, Eq, Structural, Debug)]
pub struct Renderable {
    pub glyph: u8,
    pub fg: Rgb,
    pub bg: Rgb,
}

/// Cached field-of-view result; `dirty` forces a recompute on the next
/// visibility pass.
pub struct Viewshed {
    pub visible_tiles: Vec<Point>,
    pub range: i32,
    pub dirty: bool,
}

/// Tag for the player entity; at most one entity carries it.
#[derive(Clone, Copy, PartialEq, Eq, Structural, Debug)]
pub struct Player {}

/// Tag for AI-controlled entities.
#[derive(Clone, Copy, PartialEq, Eq, Structural, Debug)]
pub struct Monster {}

pub struct Name {
    pub name: String,
}

/// This component indicates that the entity is solid, and cannot be
/// walked through.
#[derive(Clone, Copy, PartialEq, Eq, Structural, Debug)]
pub struct BlocksTile {}

#[derive(Clone, Copy, PartialEq, Eq, Structural, Debug)]
pub struct CombatStats {
    pub max_hp: i32,
    pub hp: i32,
    pub defence: i32,
    pub power: i32,
}

/// Combat values stay in a range small enough that damage and healing
/// arithmetic cannot overflow, and hit points never exceed the maximum.
pub open spec fn spec_stats_ok(s: CombatStats) -> bool {
    &&& 0 <= s.power <= 1000000
    &&& 0 <= s.defence <= 1000000
    &&& 0 <= s.max_hp <= 1000000
    &&& s.hp <= s.max_hp
}

/// Intent produced by input or AI, consumed by the melee system.
#[derive(Clone, Copy, PartialEq, Eq, Structural, Debug)]
pub struct WantsToMelee {
    pub target: usize,
}

/// Intent produced by melee, consumed by the damage system.
#[derive(Clone, Copy, PartialEq, Eq, Structural, Debug)]
pub struct SufferDamage {
    pub amount: i32,
}

/// Tag: this entity can be picked up.
#[derive(Clone, Copy, PartialEq, Eq, Structural, Debug)]
pub struct Item {}

#[derive(Clone, Copy, PartialEq, Eq, Structural, Debug)]
pub struct Potion {
    pub heal_amount: i32,
}

/// The item belongs to the owner's inventory and has no position.
#[derive(Clone, Copy, PartialEq, Eq, Structural, Debug)]
pub struct InBackpack {
    pub owner: usize,
}

#[derive(Clone, Copy, PartialEq, Eq, Structural, Debug)]
pub struct WantsToPickupItem {
    pub collected_by: usize,
    pub item: usize,
}

#[derive(Clone, Copy, PartialEq, Eq, Structural, Debug)]
pub struct WantsToDrinkPotion {
    pub potion: usize,
}

#[derive(Clone, Copy, PartialEq, Eq, Structural, Debug)]
pub struct WantsToDropItem {
    pub item: usize,
}

/// The examine-mode cursor, kept apart from the player's position so
/// that examining never perturbs the simulation.
#[derive(Clone, Copy, PartialEq, Eq, Structural, Debug)]
pub struct Cursor {
    pub x: i32,
    pub y: i32,
}

} // verus!
