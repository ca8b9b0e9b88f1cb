use rustlike::components::Point;
use rustlike::fov::field_of_view;
use rustlike::gamelog::u32_to_string;
use rustlike::map::{GameMap, TileType, MAPCOUNT};
use rustlike::pathfinding::a_star_search;
use rustlike::player::VirtualKeyCode;
use rustlike::rng::RandomSource;
use rustlike::state::{RunState, State};

fn deep_equal(a: &State, b: &State) -> bool {
    let wa = &a.ecs;
    let wb = &b.ecs;
    if wa.alive != wb.alive || wa.run_state != wb.run_state || wa.player_pos != wb.player_pos {
        return false;
    }
    if wa.rng.state != wb.rng.state || wa.player_entity != wb.player_entity {
        return false;
    }
    if wa.positions != wb.positions || wa.combat_stats != wb.combat_stats {
        return false;
    }
    if wa.map.tiles != wb.map.tiles || wa.map.blocked != wb.map.blocked {
        return false;
    }
    if wa.map.revealed_tiles != wb.map.revealed_tiles {
        return false;
    }
    let la: Vec<&String> = wa.log.entries.iter().collect();
    let lb: Vec<&String> = wb.log.entries.iter().collect();
    la == lb
}

#[test]
fn deterministic_dungeon() {
    let mut r1 = RandomSource::seeded(42);
    let m1 = GameMap::new_map_rooms_and_corridors(&mut r1);
    let mut r2 = RandomSource::seeded(42);
    let m2 = GameMap::new_map_rooms_and_corridors(&mut r2);
    assert_eq!(m1.tiles, m2.tiles);
    assert_eq!(m1.rooms, m2.rooms);
}

#[test]
fn deterministic_run() {
    let keys = [
        Some(VirtualKeyCode::Right),
        None,
        Some(VirtualKeyCode::Down),
        None,
        Some(VirtualKeyCode::Left),
        None,
        Some(VirtualKeyCode::G),
        None,
        Some(VirtualKeyCode::X),
        Some(VirtualKeyCode::Right),
        Some(VirtualKeyCode::X),
        None,
    ];
    let mut a = State::new_game(99);
    let mut b = State::new_game(99);
    for key in keys.iter() {
        a.tick(*key);
        b.tick(*key);
        assert!(deep_equal(&a, &b));
    }
}

#[test]
fn rooms_do_not_overlap() {
    let mut rng = RandomSource::seeded(7);
    let map = GameMap::new_map_rooms_and_corridors(&mut rng);
    for i in 0..map.rooms.len() {
        for j in (i + 1)..map.rooms.len() {
            let a = map.rooms[i];
            let b = map.rooms[j];
            assert!(!a.intersect(&b), "rooms {} and {} overlap", i, j);
        }
    }
}

#[test]
fn room_centers_are_connected() {
    // Flood fill over floor tiles from the first room's centre; every
    // other centre must be reached through cardinal floor steps.
    let mut rng = RandomSource::seeded(42);
    let map = GameMap::new_map_rooms_and_corridors(&mut rng);
    let (sx, sy) = map.rooms[0].center();
    let start = (sy as usize) * 80 + (sx as usize);
    let mut seen = vec![false; MAPCOUNT];
    let mut stack = vec![start];
    seen[start] = true;
    while let Some(t) = stack.pop() {
        let x = (t % 80) as i32;
        let y = (t / 80) as i32;
        for (dx, dy) in [(-1i32, 0i32), (1, 0), (0, -1), (0, 1)] {
            let nx = x + dx;
            let ny = y + dy;
            if nx < 0 || nx > 79 || ny < 0 || ny > 42 {
                continue;
            }
            let ni = (ny as usize) * 80 + (nx as usize);
            if !seen[ni] && map.tiles[ni] == TileType::FLOOR {
                seen[ni] = true;
                stack.push(ni);
            }
        }
    }
    for room in map.rooms.iter() {
        let (cx, cy) = room.center();
        let c = (cy as usize) * 80 + (cx as usize);
        assert!(seen[c], "room centre ({}, {}) unreachable", cx, cy);
    }
}

#[test]
fn revealed_tiles_grow_monotonically() {
    let mut gs = State::new_game(5);
    let mut before: Vec<bool> = gs.ecs.map.revealed_tiles.clone();
    let keys = [None, Some(VirtualKeyCode::Right), None, Some(VirtualKeyCode::Down), None];
    for key in keys.iter() {
        gs.tick(*key);
        let after = &gs.ecs.map.revealed_tiles;
        for i in 0..MAPCOUNT {
            assert!(!before[i] || after[i], "tile {} lost its revelation", i);
        }
        before = after.clone();
    }
}

#[test]
fn positions_stay_on_grid() {
    let mut gs = State::new_game(11);
    let keys = [None, Some(VirtualKeyCode::Right), None, Some(VirtualKeyCode::Up), None, None];
    for key in keys.iter() {
        gs.tick(*key);
        for e in 0..gs.ecs.alive.len() {
            if let Some(p) = gs.ecs.positions[e] {
                assert!(p.x >= 0 && p.x < 80 && p.y >= 0 && p.y < 43);
            }
        }
    }
}

#[test]
fn intents_drain_each_pass() {
    let mut gs = State::new_game(13);
    for _ in 0..6 {
        gs.tick(None);
        for e in 0..gs.ecs.alive.len() {
            assert!(gs.ecs.wants_to_melee[e].is_none());
            assert!(gs.ecs.wants_pickup[e].is_none());
            assert!(gs.ecs.wants_drink[e].is_none());
            assert!(gs.ecs.wants_drop[e].is_none());
            assert!(gs.ecs.suffer_damage[e].is_none());
        }
    }
}

#[test]
fn occupancy_matches_walls_and_blockers() {
    let mut gs = State::new_game(3);
    gs.tick(None);
    gs.tick(None);
    let w = &gs.ecs;
    let mut expected = vec![false; MAPCOUNT];
    for i in 0..MAPCOUNT {
        expected[i] = w.map.tiles[i] == TileType::WALL;
    }
    for e in 0..w.alive.len() {
        if w.alive[e] && w.blocks_tile[e].is_some() {
            if let Some(p) = w.positions[e] {
                expected[(p.y as usize) * 80 + (p.x as usize)] = true;
            }
        }
    }
    assert_eq!(w.map.blocked, expected);
}

#[test]
fn random_range_stays_in_bounds() {
    let mut rng = RandomSource::seeded(1);
    for _ in 0..1000 {
        let v = rng.range(3, 9);
        assert!((3..9).contains(&v));
        let d = rng.roll_dice(2, 6);
        assert!((2..=12).contains(&d));
    }
}

#[test]
fn random_source_reproduces_draws() {
    let mut a = RandomSource::seeded(1234);
    let mut b = RandomSource::seeded(1234);
    for _ in 0..100 {
        assert_eq!(a.range(0, 1000), b.range(0, 1000));
    }
}

#[test]
fn decimal_rendering_is_exact() {
    assert_eq!(u32_to_string(0), "0");
    assert_eq!(u32_to_string(7), "7");
    assert_eq!(u32_to_string(33), "33");
    assert_eq!(u32_to_string(1000000), "1000000");
    assert_eq!(u32_to_string(4294967295), "4294967295");
}

#[test]
fn path_search_walks_valid_steps() {
    let mut rng = RandomSource::seeded(42);
    let mut map = GameMap::new_map_rooms_and_corridors(&mut rng);
    map.populate_blocked();
    let (ax, ay) = map.rooms[0].center();
    let (bx, by) = map.rooms[1].center();
    let start = (ay as usize) * 80 + (ax as usize);
    let end = (by as usize) * 80 + (bx as usize);
    let path = a_star_search(start, end, &map);
    assert!(path.success, "two carved room centres must connect");
    assert_eq!(path.steps[0], start);
    assert_eq!(*path.steps.last().unwrap(), end);
    for w in path.steps.windows(2) {
        let (x0, y0) = ((w[0] % 80) as i32, (w[0] / 80) as i32);
        let (x1, y1) = ((w[1] % 80) as i32, (w[1] / 80) as i32);
        assert!((x0 - x1).abs() <= 1 && (y0 - y1).abs() <= 1);
        assert!(!map.blocked[w[1]]);
    }
}

#[test]
fn run_state_machine_transitions() {
    let mut gs = State::new_game(21);
    assert_eq!(gs.ecs.run_state, RunState::PreRun);
    gs.tick(None);
    assert_eq!(gs.ecs.run_state, RunState::AwaitingInput);
    gs.tick(None);
    assert_eq!(gs.ecs.run_state, RunState::AwaitingInput);
    gs.tick(Some(VirtualKeyCode::I));
    assert_eq!(gs.ecs.run_state, RunState::ShowInventory);
    gs.tick(None);
    assert_eq!(gs.ecs.run_state, RunState::ShowInventory);
    gs.tick(Some(VirtualKeyCode::Escape));
    assert_eq!(gs.ecs.run_state, RunState::AwaitingInput);
}

#[test]
fn generated_border_stays_walls() {
    let mut rng = RandomSource::seeded(8);
    let map = GameMap::new_map_rooms_and_corridors(&mut rng);
    for x in 0..80usize {
        assert_eq!(map.tiles[x], TileType::WALL);
        assert_eq!(map.tiles[42 * 80 + x], TileType::WALL);
    }
    for y in 0..43usize {
        assert_eq!(map.tiles[y * 80], TileType::WALL);
        assert_eq!(map.tiles[y * 80 + 79], TileType::WALL);
    }
}

#[test]
fn fov_is_bounded_and_starts_at_origin() {
    let mut rng = RandomSource::seeded(4);
    let map = GameMap::new_map_rooms_and_corridors(&mut rng);
    let (cx, cy) = map.rooms[0].center();
    let origin = Point { x: cx, y: cy };
    let seen = field_of_view(&map, origin, 8);
    assert_eq!(seen[0], origin);
    for p in seen.iter() {
        assert!(p.x >= 0 && p.x < 80 && p.y >= 0 && p.y < 43);
        assert!((p.x - cx).abs() <= 8 && (p.y - cy).abs() <= 8);
    }
}
