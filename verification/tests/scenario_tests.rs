use rustlike::components::{
    BlocksTile, CombatStats, Item, Monster, Name, Point, Position, Potion, SufferDamage, Viewshed,
};
use rustlike::map::TileType;
use rustlike::player::VirtualKeyCode;
use rustlike::spawner;
use rustlike::state::{RunState, State};
use rustlike::world::World;

fn carve_floor(w: &mut World, x1: i32, y1: i32, x2: i32, y2: i32) {
    for y in y1..=y2 {
        for x in x1..=x2 {
            let idx = (y as usize) * 80 + (x as usize);
            w.map.tiles[idx] = TileType::FLOOR;
        }
    }
}

fn small_arena(seed: u64) -> State {
    let mut world = World::new(seed);
    carve_floor(&mut world, 2, 2, 20, 20);
    let pe = spawner::player(&mut world, 5, 5);
    world.player_entity = pe;
    world.player_pos = Point { x: 5, y: 5 };
    world.run_state = RunState::AwaitingInput;
    State { ecs: world }
}

fn spawn_orc(w: &mut World, x: i32, y: i32, name: &str) -> usize {
    let e = w.create_entity();
    w.positions[e] = Some(Position { x, y });
    w.names[e] = Some(Name { name: name.to_string() });
    w.combat_stats[e] = Some(CombatStats { max_hp: 9, hp: 9, defence: 1, power: 4 });
    w.blocks_tile[e] = Some(BlocksTile {});
    w.monsters[e] = Some(Monster {});
    w.viewsheds[e] = Some(Viewshed { visible_tiles: Vec::new(), range: 8, dirty: true });
    e
}

fn spawn_potion(w: &mut World, x: i32, y: i32) -> usize {
    let e = w.create_entity();
    w.positions[e] = Some(Position { x, y });
    w.names[e] = Some(Name { name: "Health Potion".to_string() });
    w.items[e] = Some(Item {});
    w.potions[e] = Some(Potion { heal_amount: 8 });
    e
}

fn log_contains(gs: &State, needle: &str) -> bool {
    gs.ecs.log.entries.iter().any(|s| s == needle)
}

#[test]
fn move_into_empty_tile() {
    let mut gs = small_arena(1);
    let log_len = gs.ecs.log.entries.len();
    gs.tick(Some(VirtualKeyCode::Right));
    let pe = gs.ecs.player_entity;
    let pos = gs.ecs.positions[pe].unwrap();
    assert_eq!(pos.x, 6);
    assert_eq!(pos.y, 5);
    assert_eq!(gs.ecs.player_pos.x, 6);
    match &gs.ecs.viewsheds[pe] {
        Some(vs) => assert!(vs.dirty),
        None => panic!("player lost viewshed"),
    }
    assert_eq!(gs.ecs.run_state, RunState::MonsterTurn);
    assert_eq!(gs.ecs.log.entries.len(), log_len);
}

#[test]
fn move_into_wall() {
    let mut gs = small_arena(1);
    // Place a wall east of the player.
    gs.ecs.map.tiles[5 * 80 + 6] = TileType::WALL;
    let log_len = gs.ecs.log.entries.len();
    gs.tick(Some(VirtualKeyCode::Right));
    let pe = gs.ecs.player_entity;
    let pos = gs.ecs.positions[pe].unwrap();
    assert_eq!(pos.x, 5);
    assert_eq!(pos.y, 5);
    assert_eq!(gs.ecs.run_state, RunState::AwaitingInput);
    assert_eq!(gs.ecs.log.entries.len(), log_len);
}

#[test]
fn melee_adjacent_orc() {
    let mut gs = small_arena(1);
    let orc = spawn_orc(&mut gs.ecs, 6, 5, "Orc #0");
    // Queue the attack, resolve it, then apply the damage.
    gs.tick(Some(VirtualKeyCode::Right));
    assert!(gs.ecs.wants_to_melee[gs.ecs.player_entity].is_some());
    assert_eq!(gs.ecs.run_state, RunState::MonsterTurn);
    gs.tick(None);
    gs.tick(None);
    assert_eq!(gs.ecs.combat_stats[orc].unwrap().hp, 6);
    assert!(log_contains(&gs, "Player hits Orc #0 for 3 damage"));

    // Two more exchanges kill the orc.
    for _ in 0..2 {
        gs.tick(Some(VirtualKeyCode::Right));
        gs.tick(None);
        gs.tick(None);
    }
    assert!(!gs.ecs.alive[orc]);
    assert!(log_contains(&gs, "Orc #0 is dead"));
    // One more pass rebuilds the occupancy index: the floor tile the
    // orc blocked is walkable again.
    gs.tick(None);
    assert!(!gs.ecs.map.blocked[5 * 80 + 6]);
}

#[test]
fn player_death_is_terminal() {
    let mut gs = small_arena(1);
    let pe = gs.ecs.player_entity;
    gs.ecs.combat_stats[pe] = Some(CombatStats { max_hp: 33, hp: 1, defence: 1, power: 4 });
    gs.ecs.suffer_damage[pe] = Some(SufferDamage { amount: 5 });
    gs.tick(None);
    assert_eq!(gs.ecs.combat_stats[pe].unwrap().hp, -4);
    assert!(gs.ecs.alive[pe]);
    assert!(log_contains(&gs, "You are dead"));
    // Movement keys no longer take a turn.
    let pos_before = gs.ecs.positions[pe].unwrap();
    gs.tick(Some(VirtualKeyCode::Right));
    assert_eq!(gs.ecs.positions[pe].unwrap(), pos_before);
    assert_eq!(gs.ecs.run_state, RunState::AwaitingInput);
}

#[test]
fn pickup_and_drink_potion() {
    let mut gs = small_arena(1);
    let pe = gs.ecs.player_entity;
    gs.ecs.combat_stats[pe] = Some(CombatStats { max_hp: 33, hp: 25, defence: 1, power: 4 });
    let potion = spawn_potion(&mut gs.ecs, 5, 5);
    // G queues the pickup; the next pass executes it.
    gs.tick(Some(VirtualKeyCode::G));
    assert_eq!(gs.ecs.run_state, RunState::MonsterTurn);
    gs.tick(None);
    assert!(gs.ecs.positions[potion].is_none());
    assert_eq!(gs.ecs.in_backpack[potion].unwrap().owner, pe);
    assert!(log_contains(&gs, "You pick up the Health Potion"));
    // I opens the menu; the first letter drinks the potion.
    gs.tick(Some(VirtualKeyCode::I));
    assert_eq!(gs.ecs.run_state, RunState::ShowInventory);
    gs.tick(Some(VirtualKeyCode::A));
    assert_eq!(gs.ecs.run_state, RunState::MonsterTurn);
    gs.tick(None);
    assert_eq!(gs.ecs.combat_stats[pe].unwrap().hp, 33);
    assert!(!gs.ecs.alive[potion]);
    assert!(log_contains(&gs, "You drink the Health Potion, healing 8 hp"));
}

#[test]
fn drop_item_lands_at_player_tile() {
    let mut gs = small_arena(1);
    let pe = gs.ecs.player_entity;
    let potion = spawn_potion(&mut gs.ecs, 5, 5);
    gs.tick(Some(VirtualKeyCode::G));
    gs.tick(None);
    assert!(gs.ecs.in_backpack[potion].is_some());
    // Walk one tile, then drop the potion there.
    gs.tick(Some(VirtualKeyCode::Right));
    gs.tick(None);
    gs.tick(Some(VirtualKeyCode::D));
    assert_eq!(gs.ecs.run_state, RunState::ShowDropItem);
    gs.tick(Some(VirtualKeyCode::A));
    gs.tick(None);
    assert!(gs.ecs.in_backpack[potion].is_none());
    assert_eq!(gs.ecs.positions[potion].unwrap(), Position { x: 6, y: 5 });
    assert!(log_contains(&gs, "You drop the Health Potion"));
}

#[test]
fn examine_mode_moves_cursor_not_player() {
    let mut gs = small_arena(1);
    let pe = gs.ecs.player_entity;
    gs.tick(Some(VirtualKeyCode::X));
    assert_eq!(gs.ecs.run_state, RunState::Examining);
    assert_eq!(gs.ecs.cursor.x, 5);
    assert_eq!(gs.ecs.cursor.y, 5);
    gs.tick(Some(VirtualKeyCode::Right));
    assert_eq!(gs.ecs.run_state, RunState::Examining);
    assert_eq!(gs.ecs.cursor.x, 6);
    assert_eq!(gs.ecs.positions[pe].unwrap().x, 5);
    gs.tick(Some(VirtualKeyCode::X));
    assert_eq!(gs.ecs.run_state, RunState::AwaitingInput);
}

#[test]
fn melee_zero_damage_is_logged() {
    let mut gs = small_arena(1);
    let orc = spawn_orc(&mut gs.ecs, 6, 5, "Iron Golem");
    gs.ecs.combat_stats[orc] = Some(CombatStats { max_hp: 9, hp: 9, defence: 10, power: 0 });
    gs.tick(Some(VirtualKeyCode::Right));
    gs.tick(None);
    assert!(log_contains(&gs, "Player is unable to hurt Iron Golem"));
    gs.tick(None);
    assert_eq!(gs.ecs.combat_stats[orc].unwrap().hp, 9);
}

#[test]
fn empty_inventory_menu_selects_nothing() {
    let mut gs = small_arena(1);
    gs.tick(Some(VirtualKeyCode::I));
    assert_eq!(gs.ecs.run_state, RunState::ShowInventory);
    gs.tick(Some(VirtualKeyCode::A));
    assert_eq!(gs.ecs.run_state, RunState::ShowInventory);
    gs.tick(Some(VirtualKeyCode::Escape));
    assert_eq!(gs.ecs.run_state, RunState::AwaitingInput);
}

#[test]
fn damage_from_two_attackers_merges() {
    let mut gs = small_arena(1);
    let pe = gs.ecs.player_entity;
    spawn_orc(&mut gs.ecs, 6, 5, "Orc #0");
    spawn_orc(&mut gs.ecs, 4, 5, "Orc #1");
    // Take a turn; both adjacent monsters queue attacks, the melee pass
    // merges their damage, and the next pass applies it in one blow.
    gs.tick(Some(VirtualKeyCode::Down));
    gs.tick(None);
    gs.tick(None);
    assert_eq!(gs.ecs.combat_stats[pe].unwrap().hp, 33 - 6);
}
