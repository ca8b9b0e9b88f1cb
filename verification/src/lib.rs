//! Deterministic simulation core of a turn-based grid roguelike: dungeon
//! generation, field of view, monster AI and path-finding, melee combat,
//! damage, inventory handling, and the run-state machine that drives one
//! game tick. Rendering, input polling and the terminal live outside the
//! library; the core consumes plain key values and produces log strings.

pub mod ai;
pub mod components;
pub mod damage_system;
pub mod fov;
pub mod gamelog;
pub mod gui;
pub mod inventory_system;
pub mod item;
pub mod map;
pub mod map_indexing_system;
pub mod melee_combat_system;
pub mod monster_ai_system;
pub mod object;
pub mod pathfinding;
pub mod player;
pub mod rect;
pub mod rng;
pub mod spawner;
pub mod state;
pub mod tile;
pub mod visibility_system;
pub mod world;
