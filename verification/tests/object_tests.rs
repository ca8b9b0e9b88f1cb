use rustlike::components::Rgb;
use rustlike::item::Item;
use rustlike::object::{Object, StatsComponent};
use rustlike::tile::Tile;

#[test]
fn tiles_block_as_advertised() {
    let empty = Tile::empty();
    assert!(!empty.blocked);
    assert!(!empty.block_sight);
    assert_eq!(empty.character, ' ');
    assert!(!empty.explored);
    let wall = Tile::wall();
    assert!(wall.blocked);
    assert!(wall.block_sight);
    assert_eq!(wall.character, '#');
}

#[test]
fn object_damage_and_death() {
    let stats = StatsComponent::new(30, 30, 2, 5);
    let mut orc = Object::new(
        3,
        4,
        'o',
        None,
        Some(Rgb { r: 255, g: 0, b: 0 }),
        Some(stats),
        None,
        "orc".to_string(),
        true,
    );
    assert!(!orc.is_alive());
    orc.alive = true;
    assert!(orc.is_alive());
    assert_eq!(orc.position(), (3, 4));
    orc.set_position(5, 6);
    assert_eq!(orc.position(), (5, 6));

    orc.take_damage(10);
    assert_eq!(orc.stats().unwrap().hp, 20);
    assert!(orc.is_alive());
    orc.take_damage(25);
    // Lethal damage strips the combat role and leaves a corpse glyph.
    assert!(orc.stats().is_none());
    assert!(!orc.is_alive());
    assert!(!orc.blocking);
    assert_eq!(orc.renderer.character, '%');
}

#[test]
fn item_placement() {
    let mut potion = Item::new(
        7,
        8,
        'i',
        None,
        Some(Rgb { r: 255, g: 0, b: 255 }),
        "healing potion".to_string(),
    );
    assert_eq!(potion.position(), (7, 8));
    potion.set_position(9, 10);
    assert_eq!(potion.position(), (9, 10));
    assert_eq!(potion.name, "healing potion");
}
