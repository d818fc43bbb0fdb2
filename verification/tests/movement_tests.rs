use rusty_roguelike::components::Position;
use rusty_roguelike::entity::EntityId;
use rusty_roguelike::map::{edge_border, GameMap};
use rusty_roguelike::movement::{try_move_player, EntityTraits};
use rusty_roguelike::runstate::RunState;
use rusty_roguelike::tiles::TileType;

fn e(index: u32) -> EntityId {
    EntityId { index, generation: 1 }
}

fn traits(entity: EntityId) -> EntityTraits {
    EntityTraits { entity, bystander: false, vendor: false, attackable: false, door: false, has_position: true }
}

fn room() -> GameMap {
    let mut m = GameMap::new(1, 5, 5, "Test");
    for t in m.tiles.iter_mut() {
        *t = TileType::Floor;
    }
    edge_border(&mut m);
    m
}

const PLAYER: EntityId = EntityId { index: 0, generation: 1 };

#[test]
fn step_onto_floor() {
    let mut m = room();
    let out = try_move_player(1, 0, &mut m, PLAYER, Position { x: 1, y: 2 }, &vec![]);
    assert_eq!(out.state, RunState::Ticking);
    assert_eq!(out.player_pos, Position { x: 2, y: 2 });
    assert!(out.moved && out.viewshed_dirty);
    assert_eq!(out.player_point, Some(Position { x: 2, y: 2 }));
    assert!(m.blocked[0] && !m.blocked[12]);
    assert_eq!(out.door_glyph, 47);
}

#[test]
fn walls_and_the_edge_stop_the_player() {
    let mut m = room();
    let out = try_move_player(-1, 0, &mut m, PLAYER, Position { x: 1, y: 2 }, &vec![]);
    assert_eq!(out.state, RunState::AwaitingInput);
    assert_eq!(out.player_pos, Position { x: 1, y: 2 });
    assert!(!out.moved);
    let mut m2 = room();
    let out = try_move_player(-1, 0, &mut m2, PLAYER, Position { x: 0, y: 2 }, &vec![]);
    assert_eq!(out.state, RunState::AwaitingInput);
    assert!(m2.blocked.iter().all(|b| !*b));
}

#[test]
fn stairs_change_level() {
    let mut m = room();
    m.tiles[13] = TileType::DownStairs;
    m.tiles[11] = TileType::UpStairs;
    let out = try_move_player(1, 0, &mut m, PLAYER, Position { x: 2, y: 2 }, &vec![]);
    assert_eq!(out.state, RunState::NextLevel);
    let out = try_move_player(-1, 0, &mut m, PLAYER, Position { x: 2, y: 2 }, &vec![]);
    assert_eq!(out.state, RunState::PreviousLevel);
}

#[test]
fn attacking() {
    let mut m = room();
    let orc = e(4);
    m.tile_content[13].push(orc);
    let mut t = traits(orc);
    t.attackable = true;
    let out = try_move_player(1, 0, &mut m, PLAYER, Position { x: 2, y: 2 }, &vec![t]);
    assert_eq!(out.state, RunState::Ticking);
    assert_eq!(out.melee_target, Some(orc));
    assert_eq!(out.player_pos, Position { x: 2, y: 2 });
    assert!(!out.moved);
}

#[test]
fn bystanders_swap_places() {
    let mut m = room();
    let villager = e(5);
    m.tile_content[12].push(villager);
    let mut t = traits(villager);
    t.bystander = true;
    let out = try_move_player(1, 0, &mut m, PLAYER, Position { x: 1, y: 2 }, &vec![t]);
    assert_eq!(out.state, RunState::Ticking);
    assert_eq!(out.swaps, vec![(villager, Position { x: 1, y: 2 })]);
    assert_eq!(out.player_pos, Position { x: 3, y: 2 });
}

#[test]
fn doors_open() {
    let mut m = room();
    let door = e(6);
    m.tile_content[12].push(door);
    let mut t = traits(door);
    t.door = true;
    let out = try_move_player(1, 0, &mut m, PLAYER, Position { x: 1, y: 2 }, &vec![t]);
    assert_eq!(out.opened_doors, vec![door]);
    assert_eq!(out.player_pos, Position { x: 2, y: 2 });
    assert_eq!(out.state, RunState::Ticking);
}

#[test]
fn the_player_in_the_way_ends_the_attempt() {
    let mut m = room();
    m.tile_content[12].push(PLAYER);
    let out = try_move_player(1, 0, &mut m, PLAYER, Position { x: 1, y: 2 }, &vec![]);
    assert_eq!(out.state, RunState::AwaitingInput);
    assert_eq!(out.player_pos, Position { x: 1, y: 2 });
    assert!(out.swaps.is_empty());
}

#[test]
fn huge_steps_off_a_small_map_change_nothing() {
    let mut m = room();
    let before = m.tiles.clone();
    let out = try_move_player(i32::MAX - 2, 0, &mut m, PLAYER, Position { x: 1, y: 2 }, &vec![]);
    assert_eq!(out.state, RunState::AwaitingInput);
    assert_eq!(out.player_pos, Position { x: 1, y: 2 });
    assert!(!out.moved);
    let out = try_move_player(0, i32::MIN + 1, &mut m, PLAYER, Position { x: 1, y: 2 }, &vec![]);
    assert_eq!(out.state, RunState::AwaitingInput);
    assert_eq!(m.tiles, before);
}
