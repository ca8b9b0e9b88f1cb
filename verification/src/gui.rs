use vstd::prelude::*;
use crate::player::VirtualKeyCode;
use crate::state::State;
use crate::world::World;

verus! {

/// What the inventory menu reports for one key: nothing yet, a
/// cancelled menu, or a chosen item entity.
#[derive(Clone, Copy, PartialEq, Eq, Structural, Debug)]
pub enum ItemMenuResult {
    Cancel,
    NoResponse,
    Selected(usize),
}

/// Entity `e` sits in the player's backpack.
pub open spec fn spec_in_player_backpack(w: World, e: int) -> bool {
    &&& 0 <= e < w.n()
    &&& w.alive@[e]
    &&& w.in_backpack@[e] is Some
    &&& w.in_backpack@[e]->0.owner == w.player_entity
}

/// The player's inventory in entity order, considering the entities
/// below `upto`.
pub open spec fn spec_inventory(w: World, upto: int) -> Seq<usize>
    decreases upto,
{
    if upto <= 0 {
        Seq::empty()
    } else {
        let prior = spec_inventory(w, upto - 1);
        if spec_in_player_backpack(w, upto - 1) {
            prior.push((upto - 1) as usize)
        } else {
            prior
        }
    }
}

/// The menu index a key selects, as letters of the alphabet; a key
/// that is no letter selects nothing.
pub open spec fn spec_letter_index(k: VirtualKeyCode) -> int {
    match k {
        VirtualKeyCode::A => 0,
        VirtualKeyCode::B => 1,
        VirtualKeyCode::C => 2,
        VirtualKeyCode::D => 3,
        VirtualKeyCode::E => 4,
        VirtualKeyCode::G => 6,
        VirtualKeyCode::H => 7,
        VirtualKeyCode::I => 8,
        VirtualKeyCode::J => 9,
        VirtualKeyCode::K => 10,
        VirtualKeyCode::L => 11,
        VirtualKeyCode::N => 13,
        VirtualKeyCode::U => 20,
        VirtualKeyCode::X => 23,
        VirtualKeyCode::Y => 24,
        _ => -1,
    }
}

/// What the inventory menu answers for a key over the given world: no
/// key is no response, escape cancels, and a letter that lands inside
/// the inventory selects that item.
pub open spec fn spec_menu_result(w: World, key: Option<VirtualKeyCode>) -> ItemMenuResult {
    match key {
        None => ItemMenuResult::NoResponse,
        Some(k) => {
            if k == VirtualKeyCode::Escape {
                ItemMenuResult::Cancel
            } else {
                let sel = spec_letter_index(k);
                let inv = spec_inventory(w, w.n());
                if 0 <= sel < inv.len() {
                    ItemMenuResult::Selected(inv[sel])
                } else {
                    ItemMenuResult::NoResponse
                }
            }
        },
    }
}

/// The items in the player's backpack, in ascending entity order; the
/// menu displays them in this order and selection indexes into it.
pub fn inventory_list(ecs: &World) -> (r: Vec<usize>)
    requires
        ecs.wf(),
    ensures
        r@ == spec_inventory(*ecs, ecs.n()),
{
    let n = ecs.alive.len();
    let mut r: Vec<usize> = Vec::new();
    let mut e: usize = 0;
    while e < n
        invariant
            ecs.wf(),
            n == ecs.n(),
            e <= n,
            r@ == spec_inventory(*ecs, e as int),
        decreases n - e,
    {
        let mut owner_is_player = false;
        match &ecs.in_backpack[e] {
            Some(b) => {
                owner_is_player = b.owner == ecs.player_entity;
            },
            None => {},
        }
        if ecs.alive[e] && owner_is_player {
            r.push(e);
        }
        e = e + 1;
    }
    r
}

/// The menu index a key selects: letters of the alphabet from zero,
/// anything else minus one.
fn letter_to_option(key: VirtualKeyCode) -> (r: i32)
    ensures
        r == spec_letter_index(key),
{
    match key {
        VirtualKeyCode::A => 0,
        VirtualKeyCode::B => 1,
        VirtualKeyCode::C => 2,
        VirtualKeyCode::D => 3,
        VirtualKeyCode::E => 4,
        VirtualKeyCode::G => 6,
        VirtualKeyCode::H => 7,
        VirtualKeyCode::I => 8,
        VirtualKeyCode::J => 9,
        VirtualKeyCode::K => 10,
        VirtualKeyCode::L => 11,
        VirtualKeyCode::N => 13,
        VirtualKeyCode::U => 20,
        VirtualKeyCode::X => 23,
        VirtualKeyCode::Y => 24,
        _ => -1,
    }
}

/// Interpret one key against the player's inventory; the drawing of
/// the menu box is the interface layer's business.
fn show_item_menu(gs: &State, key: Option<VirtualKeyCode>) -> (r: ItemMenuResult)
    requires
        gs.ecs.wf(),
    ensures
        r == spec_menu_result(gs.ecs, key),
{
    let inventory = inventory_list(&gs.ecs);
    let count = inventory.len();
    match key {
        None => ItemMenuResult::NoResponse,
        Some(k) => {
            if matches!(k, VirtualKeyCode::Escape) {
                ItemMenuResult::Cancel
            } else {
                let selection = letter_to_option(k);
                if selection > -1 && (selection as usize) < count {
                    return ItemMenuResult::Selected(inventory[selection as usize]);
                }
                ItemMenuResult::NoResponse
            }
        },
    }
}

/// The use-item menu: select a potion to drink.
pub fn show_inventory(gs: &State, key: Option<VirtualKeyCode>) -> (r: ItemMenuResult)
    requires
        gs.ecs.wf(),
    ensures
        r == spec_menu_result(gs.ecs, key),
{
    show_item_menu(gs, key)
}

/// The drop-item menu: select an item to put down.
pub fn show_drop_item(gs: &State, key: Option<VirtualKeyCode>) -> (r: ItemMenuResult)
    requires
        gs.ecs.wf(),
    ensures
        r == spec_menu_result(gs.ecs, key),
{
    show_item_menu(gs, key)
}

} // verus!
