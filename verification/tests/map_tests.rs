use rusty_roguelike::map::{
    draw_map, edge_border, is_revealed_and_wall, reveal_row, stairs_present, wall_glyph, walkable,
    GameMap, TileColor,
};
use rusty_roguelike::tiles::{tile_opaque, tile_walkable, TileType};

fn floor_map(w: i32, h: i32) -> GameMap {
    let mut m = GameMap::new(1, w, h, "Test");
    for t in m.tiles.iter_mut() {
        *t = TileType::Floor;
    }
    m
}

#[test]
fn new_map_is_solid_wall() {
    let m = GameMap::new(3, 4, 3, "Test");
    assert_eq!(m.tiles.len(), 12);
    assert!(m.tiles.iter().all(|t| *t == TileType::Wall));
    assert!(m.revealed_tiles.iter().all(|b| !*b));
    assert!(m.visible_tiles.iter().all(|b| !*b));
    assert!(m.blocked.iter().all(|b| !*b));
    assert_eq!(m.tile_content.len(), 12);
    assert!(m.tile_content.iter().all(|c| c.is_empty()));
    assert!(m.bloodstains.is_empty());
    assert!(m.view_blocked.is_empty());
    assert_eq!(m.name, "Test");
    assert_eq!(m.depth, 3);
    assert!(m.outdoors);
}

#[test]
fn tile_kinds() {
    assert!(!tile_walkable(TileType::Wall));
    assert!(tile_walkable(TileType::Floor));
    assert!(tile_walkable(TileType::DownStairs));
    assert!(tile_walkable(TileType::UpStairs));
    assert!(tile_opaque(TileType::Wall));
    assert!(!tile_opaque(TileType::Floor));
}

#[test]
fn xy_idx_and_back() {
    let m = GameMap::new(1, 5, 4, "Test");
    assert_eq!(m.xy_idx(3, 2), 13);
    assert_eq!(m.xy_idx(0, 0), 0);
    assert_eq!(m.idx_xy(13), (3, 2));
    assert_eq!(m.idx_xy(4), (4, 0));
}

#[test]
fn populate_blocked_follows_tiles() {
    let mut m = GameMap::new(1, 3, 1, "Test");
    m.tiles[1] = TileType::Floor;
    m.tiles[2] = TileType::DownStairs;
    m.blocked = vec![false, true, true, true];
    m.populate_blocked();
    assert_eq!(m.blocked, vec![true, false, false, false]);
}

#[test]
fn exits_from_the_middle_and_the_corner() {
    let mut m = floor_map(5, 5);
    m.populate_blocked();
    assert!(!m.is_exit_valid(0, 2));
    assert!(m.is_exit_valid(2, 2));
    assert!(m.is_exit_valid(4, 2));
    assert!(!m.is_exit_valid(5, 2));
    let exits = m.available_exits(12);
    assert_eq!(
        exits,
        vec![
            (11, false),
            (13, false),
            (7, false),
            (17, false),
            (6, true),
            (8, true),
            (16, true),
            (18, true)
        ]
    );
    let corner = m.available_exits(6);
    assert_eq!(corner, vec![(7, false), (11, false), (12, true)]);
}

#[test]
fn exits_avoid_blocked_tiles() {
    let mut m = floor_map(5, 5);
    m.tiles[13] = TileType::Wall;
    m.populate_blocked();
    let exits = m.available_exits(12);
    assert!(!exits.iter().any(|(i, _)| *i == 13));
    assert_eq!(exits.len(), 7);
}

#[test]
fn clear_content_empties_every_tile() {
    let mut m = GameMap::new(1, 2, 2, "Test");
    m.tile_content[1].push(rusty_roguelike::entity::EntityId { index: 4, generation: 1 });
    m.clear_content_index();
    assert_eq!(m.tile_content.len(), 4);
    assert!(m.tile_content.iter().all(|c| c.is_empty()));
}

#[test]
fn opacity() {
    let mut m = floor_map(3, 1);
    m.tiles[2] = TileType::Wall;
    assert!(m.is_opaque(0));
    assert!(!m.is_opaque(1));
    assert!(m.is_opaque(2));
    assert!(m.is_opaque(3));
    m.view_blocked.insert(1);
    assert!(m.is_opaque(1));
}

#[test]
fn wall_glyphs() {
    let mut m = floor_map(5, 5);
    for i in 0..25 {
        m.revealed_tiles[i] = true;
    }
    m.tiles[12] = TileType::Wall;
    assert_eq!(wall_glyph(&m, 2, 2), 9);
    m.tiles[7] = TileType::Wall;
    m.tiles[17] = TileType::Wall;
    assert_eq!(wall_glyph(&m, 2, 2), 186);
    m.tiles[11] = TileType::Wall;
    m.tiles[13] = TileType::Wall;
    assert_eq!(wall_glyph(&m, 2, 2), 206);
    m.revealed_tiles[13] = false;
    assert_eq!(wall_glyph(&m, 2, 2), 185);
    assert_eq!(wall_glyph(&m, 0, 2), 35);
    assert_eq!(wall_glyph(&m, 4, 2), 35);
    assert!(is_revealed_and_wall(&m, 2, 1));
    assert!(!is_revealed_and_wall(&m, 3, 2));
}

#[test]
fn draw_plan_places_revealed_tiles_in_a_row() {
    let mut m = GameMap::new(1, 4, 1, "Test");
    m.tiles = vec![TileType::Floor, TileType::Wall, TileType::DownStairs, TileType::Floor];
    m.revealed_tiles = vec![true, true, true, false];
    m.visible_tiles = vec![true, false, true, true];
    m.bloodstains.insert(0);
    m.bloodstains.insert(1);
    let plan = draw_map(&m);
    assert_eq!(plan.len(), 3);
    assert_eq!((plan[0].x, plan[0].y, plan[0].glyph), (0, 0, 46));
    assert_eq!(plan[0].color, TileColor::Floor);
    assert!(!plan[0].greyscale);
    assert!(plan[0].stained);
    assert_eq!((plan[1].x, plan[1].y, plan[1].glyph), (1, 0, 35));
    assert_eq!(plan[1].color, TileColor::Wall);
    assert!(plan[1].greyscale);
    assert!(!plan[1].stained);
    assert_eq!((plan[2].x, plan[2].glyph), (2, 62));
    assert_eq!(plan[2].color, TileColor::DownStairs);
}

#[test]
fn stairs_and_walkable_share() {
    let mut m = GameMap::new(1, 5, 2, "Test");
    assert!(!stairs_present(&m));
    for i in 0..4 {
        m.tiles[i] = TileType::Floor;
    }
    m.tiles[4] = TileType::DownStairs;
    m.tiles[5] = TileType::UpStairs;
    assert!(stairs_present(&m));
    assert!(walkable(&m, 50));
    assert!(!walkable(&m, 51));
    assert!(walkable(&m, -5));
    let empty = GameMap::new(1, 0, 0, "Empty");
    assert!(!walkable(&empty, 0));
    assert!(!stairs_present(&empty));
}

#[test]
fn edge_border_walls_the_ring_only() {
    let mut m = floor_map(4, 3);
    edge_border(&mut m);
    for y in 0..3 {
        for x in 0..4 {
            let idx = m.xy_idx(x, y);
            let border = x == 0 || x == 3 || y == 0 || y == 2;
            assert_eq!(m.tiles[idx] == TileType::Wall, border);
        }
    }
    let once = m.tiles.clone();
    edge_border(&mut m);
    assert_eq!(m.tiles, once);
}

#[test]
fn reveal_row_reveals_one_row() {
    let mut m = GameMap::new(1, 3, 3, "Test");
    reveal_row(&mut m, 1);
    assert_eq!(
        m.revealed_tiles,
        vec![false, false, false, true, true, true, false, false, false]
    );
    for row in 0..3 {
        reveal_row(&mut m, row);
    }
    assert!(m.revealed_tiles.iter().all(|b| *b));
}

#[test]
fn well_formed_maps() {
    let mut m = GameMap::new(1, 5, 4, "Test");
    assert!(m.is_well_formed());
    m.blocked.push(false);
    assert!(!m.is_well_formed());
    let mut n = GameMap::new(1, 5, 4, "Test");
    n.width = 4;
    assert!(!n.is_well_formed());
    n.width = -5;
    n.height = -4;
    assert!(!n.is_well_formed());
    assert!(GameMap::new(1, 0, 0, "Empty").is_well_formed());
}
