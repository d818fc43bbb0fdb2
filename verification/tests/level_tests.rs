use rusty_roguelike::entity::EntityId;
use rusty_roguelike::gamelog::GameLog;
use rusty_roguelike::level::{
    entities_to_remove_on_level_change, goto_level, judge_generated_level, map_rejected, reject_map,
    EntityRecord, LevelVerdict,
};
use rusty_roguelike::map::GameMap;
use rusty_roguelike::tiles::TileType;

fn e(index: u32) -> EntityId {
    EntityId { index, generation: 1 }
}

#[test]
fn level_change_keeps_the_player_and_gear() {
    let player = e(0);
    let records = vec![
        EntityRecord { entity: player, is_player: true, backpack_owner: None, equipped_owner: None },
        EntityRecord { entity: e(1), is_player: false, backpack_owner: Some(player), equipped_owner: None },
        EntityRecord { entity: e(2), is_player: false, backpack_owner: None, equipped_owner: Some(player) },
        EntityRecord { entity: e(3), is_player: false, backpack_owner: None, equipped_owner: None },
        EntityRecord { entity: e(4), is_player: false, backpack_owner: Some(e(3)), equipped_owner: None },
    ];
    assert_eq!(entities_to_remove_on_level_change(&records, player), vec![e(3), e(4)]);
}

#[test]
fn rejecting_maps() {
    let mut m = GameMap::new(1, 10, 1, "Test");
    assert!(map_rejected(&m, 11));
    m.tiles[0] = TileType::DownStairs;
    assert!(!map_rejected(&m, 10));
    assert!(map_rejected(&m, 11));
    m.tiles[1] = TileType::Floor;
    assert!(!map_rejected(&m, 15));
    m.tiles[0] = TileType::Floor;
    assert!(map_rejected(&m, 0));
}

#[test]
fn changing_level() {
    let mut log = GameLog { entries: Vec::new() };
    assert_eq!(goto_level(3, 1, &mut log), 4);
    assert_eq!(goto_level(3, -1, &mut log), 2);
    assert_eq!(log.entries, vec!["You change level.".to_string(), "You change level.".to_string()]);
}

fn records(player: EntityId) -> Vec<EntityRecord> {
    vec![
        EntityRecord { entity: player, is_player: true, backpack_owner: None, equipped_owner: None },
        EntityRecord { entity: e(5), is_player: false, backpack_owner: None, equipped_owner: None },
        EntityRecord { entity: e(6), is_player: false, backpack_owner: None, equipped_owner: Some(player) },
    ]
}

#[test]
fn generated_levels_are_judged() {
    let player = e(0);
    let mut m = GameMap::new(1, 25, 4, "Test");
    match judge_generated_level(&m, &records(player), player) {
        LevelVerdict::Rebuild(d) => assert_eq!(d, vec![e(5)]),
        LevelVerdict::Keep => panic!("a solid-wall level is kept"),
    }
    // 12 of 100 tiles walkable, one of them stairs down.
    for i in 0..12 {
        m.tiles[i] = TileType::Floor;
    }
    m.tiles[3] = TileType::DownStairs;
    assert!(matches!(judge_generated_level(&m, &records(player), player), LevelVerdict::Keep));
    // The stricter check throws the same level away, and clears the old entities.
    let (rejected, to_delete) = reject_map(&m, &records(player), player);
    assert!(rejected);
    assert_eq!(to_delete, vec![e(5)]);
    for i in 12..15 {
        m.tiles[i] = TileType::Floor;
    }
    let (rejected, to_delete) = reject_map(&m, &records(player), player);
    assert!(!rejected);
    assert_eq!(to_delete, vec![e(5)]);
    // Without stairs down a level is thrown away however open it is.
    m.tiles[3] = TileType::Floor;
    assert!(reject_map(&m, &records(player), player).0);
    assert!(matches!(judge_generated_level(&m, &records(player), player), LevelVerdict::Rebuild(_)));
}
