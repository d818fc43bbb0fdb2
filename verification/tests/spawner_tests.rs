use rltk::RandomNumberGenerator;
use rusty_roguelike::components::Rect;
use rusty_roguelike::map::GameMap;
use rusty_roguelike::spawner::{room_floor_tiles, spawn_entity, spawn_region, spawn_room};
use rusty_roguelike::tiles::TileType;

fn floor_map(w: i32, h: i32) -> GameMap {
    let mut m = GameMap::new(1, w, h, "Test");
    for t in m.tiles.iter_mut() {
        *t = TileType::Floor;
    }
    m
}

fn names(n: usize) -> Vec<String> {
    (0..n).map(|i| format!("Thing {}", i)).collect()
}

#[test]
fn spawn_positions() {
    let mut m = floor_map(4, 3);
    m.tiles[5] = TileType::Wall;
    let (p, ok) = spawn_entity(&m, &(6, "Goblin".to_string()));
    assert_eq!((p.x, p.y, ok), (2, 1, true));
    let (p, ok) = spawn_entity(&m, &(5, "Goblin".to_string()));
    assert_eq!((p.x, p.y, ok), (1, 1, false));
}

#[test]
fn room_interior_floor() {
    let mut m = floor_map(5, 5);
    m.tiles[12] = TileType::Wall;
    let room = Rect { x1: 0, y1: 0, x2: 4, y2: 4 };
    assert_eq!(room_floor_tiles(&m, &room), vec![6, 7, 8, 11, 13, 16, 17, 18]);
    let empty = Rect { x1: 2, y1: 2, x2: 3, y2: 3 };
    assert!(room_floor_tiles(&m, &empty).is_empty());
}

#[test]
fn shallow_regions_may_get_nothing() {
    let m = floor_map(5, 5);
    let area: Vec<usize> = (0..25).collect();
    for seed in 0..20u64 {
        let mut rng = RandomNumberGenerator::seeded(seed);
        let mut list = vec![(99, "Old".to_string())];
        spawn_region(&m, &mut rng, &area, -10, &names(25), &mut list);
        assert_eq!(list, vec![(99, "Old".to_string())]);
    }
}

#[test]
fn deep_regions_fill_every_tile() {
    let mut m = floor_map(3, 1);
    m.tiles[1] = TileType::Wall;
    let area = vec![0, 1, 2];
    let mut rng = RandomNumberGenerator::seeded(7);
    let mut list = Vec::new();
    spawn_region(&m, &mut rng, &area, 20, &names(3), &mut list);
    list.sort();
    let tiles: Vec<usize> = list.iter().map(|(i, _)| *i).collect();
    assert_eq!(tiles, vec![0, 2]);
    for (_, name) in &list {
        assert!(name.starts_with("Thing "));
    }
}

#[test]
fn regions_spawn_on_distinct_floor_tiles() {
    let mut m = floor_map(6, 6);
    m.tiles[7] = TileType::Wall;
    let area: Vec<usize> = (0..36).collect();
    let mut counts = Vec::new();
    for seed in 0..30u64 {
        let mut rng = RandomNumberGenerator::seeded(seed);
        let mut list = Vec::new();
        spawn_region(&m, &mut rng, &area, 3, &names(36), &mut list);
        let mut tiles: Vec<usize> = list.iter().map(|(i, _)| *i).collect();
        tiles.sort();
        tiles.dedup();
        assert_eq!(tiles.len(), list.len());
        assert!(!tiles.contains(&7));
        assert!(list.len() <= 6);
        counts.push(list.len());
    }
    counts.sort();
    counts.dedup();
    assert!(counts.len() > 1);
}

#[test]
fn rooms_spawn_inside() {
    let m = floor_map(6, 6);
    let room = Rect { x1: 1, y1: 1, x2: 4, y2: 4 };
    let inside = room_floor_tiles(&m, &room);
    let mut rng = RandomNumberGenerator::seeded(3);
    let mut list = Vec::new();
    spawn_room(&m, &mut rng, &room, 10, &names(inside.len()), &mut list);
    assert!(!list.is_empty());
    for (i, _) in &list {
        assert!(inside.contains(i));
    }
}
