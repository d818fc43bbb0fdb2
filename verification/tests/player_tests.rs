use rusty_roguelike::components::Position;
use rusty_roguelike::entity::EntityId;
use rusty_roguelike::gamelog::GameLog;
use rusty_roguelike::map::GameMap;
use rusty_roguelike::player::{
    get_item, player_input, skip_turn, take_stairs, try_next_level, try_previous_level,
    use_consumable_hotkey, CarriedItem, HungerState, Key, PlayerCommand, Pool,
};
use rusty_roguelike::runstate::RunState;
use rusty_roguelike::tiles::TileType;

fn e(index: u32) -> EntityId {
    EntityId { index, generation: 1 }
}

fn log() -> GameLog {
    GameLog { entries: vec!["You feel drowsy...".to_string()] }
}

#[test]
fn hotkeys_need_shift() {
    assert_eq!(player_input(true, Some(Key::Key1)), PlayerCommand::UseHotkey { slot: 0 });
    assert_eq!(player_input(true, Some(Key::Key9)), PlayerCommand::UseHotkey { slot: 8 });
    assert_eq!(player_input(false, Some(Key::Key1)), PlayerCommand::Enter(RunState::AwaitingInput));
    assert_eq!(player_input(true, Some(Key::Left)), PlayerCommand::Move { dx: -1, dy: 0 });
}

#[test]
fn movement_keys() {
    for k in [Key::Left, Key::Numpad4, Key::H] {
        assert_eq!(player_input(false, Some(k)), PlayerCommand::Move { dx: -1, dy: 0 });
    }
    for k in [Key::Right, Key::Numpad6, Key::L] {
        assert_eq!(player_input(false, Some(k)), PlayerCommand::Move { dx: 1, dy: 0 });
    }
    for k in [Key::Up, Key::Numpad8, Key::K] {
        assert_eq!(player_input(false, Some(k)), PlayerCommand::Move { dx: 0, dy: -1 });
    }
    for k in [Key::Down, Key::Numpad2, Key::J] {
        assert_eq!(player_input(false, Some(k)), PlayerCommand::Move { dx: 0, dy: 1 });
    }
    assert_eq!(player_input(false, Some(Key::U)), PlayerCommand::Move { dx: 1, dy: -1 });
    assert_eq!(player_input(false, Some(Key::Numpad7)), PlayerCommand::Move { dx: -1, dy: -1 });
    assert_eq!(player_input(false, Some(Key::N)), PlayerCommand::Move { dx: 1, dy: 1 });
    assert_eq!(player_input(false, Some(Key::B)), PlayerCommand::Move { dx: -1, dy: 1 });
}

#[test]
fn other_keys() {
    assert_eq!(player_input(false, None), PlayerCommand::Enter(RunState::AwaitingInput));
    assert_eq!(player_input(false, Some(Key::Space)), PlayerCommand::SkipTurn);
    assert_eq!(player_input(false, Some(Key::Numpad5)), PlayerCommand::SkipTurn);
    assert_eq!(player_input(false, Some(Key::Period)), PlayerCommand::Descend);
    assert_eq!(player_input(false, Some(Key::Comma)), PlayerCommand::Ascend);
    assert_eq!(player_input(false, Some(Key::G)), PlayerCommand::PickUp);
    assert_eq!(player_input(false, Some(Key::I)), PlayerCommand::Enter(RunState::ShowInventory));
    assert_eq!(player_input(false, Some(Key::D)), PlayerCommand::Enter(RunState::ShowDropItem));
    assert_eq!(player_input(false, Some(Key::R)), PlayerCommand::Enter(RunState::ShowRemoveItem));
    assert_eq!(player_input(false, Some(Key::Escape)), PlayerCommand::Enter(RunState::SaveGame));
    assert_eq!(player_input(false, Some(Key::Backslash)), PlayerCommand::Enter(RunState::ShowCheatMenu));
    assert_eq!(player_input(false, Some(Key::Other)), PlayerCommand::Enter(RunState::AwaitingInput));
}

fn stairs_map() -> GameMap {
    let mut m = GameMap::new(1, 3, 1, "Test");
    m.tiles = vec![TileType::DownStairs, TileType::UpStairs, TileType::Floor];
    m
}

#[test]
fn stairs() {
    let m = stairs_map();
    let mut l = log();
    assert!(try_next_level(&m, Position { x: 0, y: 0 }, &mut l));
    assert_eq!(l.entries.len(), 1);
    assert!(!try_next_level(&m, Position { x: 1, y: 0 }, &mut l));
    assert_eq!(l.entries.last().unwrap(), "There is no way down from here.");
    assert!(try_previous_level(&m, Position { x: 1, y: 0 }, &mut l));
    assert!(!try_previous_level(&m, Position { x: 2, y: 0 }, &mut l));
    assert_eq!(l.entries.last().unwrap(), "There is no way up from here.");
    assert_eq!(l.entries.len(), 3);
}

#[test]
fn taking_stairs() {
    let m = stairs_map();
    let mut l = log();
    assert_eq!(take_stairs(&m, Position { x: 0, y: 0 }, &mut l, true), RunState::NextLevel);
    assert_eq!(take_stairs(&m, Position { x: 1, y: 0 }, &mut l, false), RunState::PreviousLevel);
    assert_eq!(l.entries.len(), 1);
    assert_eq!(take_stairs(&m, Position { x: 2, y: 0 }, &mut l, true), RunState::Ticking);
    assert_eq!(take_stairs(&m, Position { x: 0, y: 0 }, &mut l, false), RunState::Ticking);
    assert_eq!(l.entries.len(), 3);
}

#[test]
fn picking_up() {
    let here = Position { x: 2, y: 3 };
    let items = vec![(e(1), here), (e(2), Position { x: 0, y: 0 }), (e(3), here)];
    let mut l = log();
    assert_eq!(get_item(here, &items, &mut l), (RunState::Ticking, Some(e(3))));
    assert_eq!(l.entries.len(), 1);
    assert_eq!(get_item(Position { x: 9, y: 9 }, &items, &mut l), (RunState::AwaitingInput, None));
    assert_eq!(l.entries.last().unwrap(), "There is nothing here to pick up.");
}

#[test]
fn hotkey_use() {
    let player = e(0);
    let other = e(9);
    let carried = vec![
        CarriedItem { item: e(1), owner: other, ranged: None },
        CarriedItem { item: e(2), owner: player, ranged: None },
        CarriedItem { item: e(3), owner: player, ranged: Some(6) },
    ];
    assert_eq!(use_consumable_hotkey(&carried, player, 0), (RunState::Ticking, Some(e(2))));
    assert_eq!(
        use_consumable_hotkey(&carried, player, 1),
        (RunState::ShowTargeting { range: 6, item: e(3) }, None)
    );
    assert_eq!(use_consumable_hotkey(&carried, player, 2), (RunState::Ticking, None));
    assert_eq!(use_consumable_hotkey(&carried, player, -1), (RunState::Ticking, None));
}

#[test]
fn waiting_heals_when_safe() {
    let mut m = GameMap::new(1, 3, 3, "Test");
    let monster = e(5);
    m.tile_content[4].push(monster);
    let hp = Pool { current: 5, max: 10 };
    let visible = vec![Position { x: 0, y: 0 }, Position { x: 2, y: 2 }];
    assert_eq!(skip_turn(&m, &visible, &vec![monster], None, hp), (RunState::Ticking, Pool { current: 6, max: 10 }));
    let seeing = vec![Position { x: 1, y: 1 }];
    assert_eq!(skip_turn(&m, &seeing, &vec![monster], None, hp).1, hp);
    assert_eq!(skip_turn(&m, &seeing, &vec![], None, hp).1.current, 6);
    assert_eq!(skip_turn(&m, &visible, &vec![], Some(HungerState::Hungry), hp).1, hp);
    assert_eq!(skip_turn(&m, &visible, &vec![], Some(HungerState::Starving), hp).1, hp);
    assert_eq!(skip_turn(&m, &visible, &vec![], Some(HungerState::WellFed), hp).1.current, 6);
    let full = Pool { current: 10, max: 10 };
    assert_eq!(skip_turn(&m, &visible, &vec![], None, full).1, full);
    let over = Pool { current: 12, max: 10 };
    assert_eq!(skip_turn(&m, &visible, &vec![], None, over).1.current, 10);
}

#[test]
fn positions_off_the_grid_use_their_tile_index() {
    // On a 3-wide map, (-1, 1) is tile 2 and (3, -1) is tile 0.
    let mut m = GameMap::new(1, 3, 2, "Test");
    m.tiles[2] = TileType::DownStairs;
    m.tiles[0] = TileType::UpStairs;
    let mut l = log();
    assert!(try_next_level(&m, Position { x: -1, y: 1 }, &mut l));
    assert!(try_previous_level(&m, Position { x: 3, y: -1 }, &mut l));
    assert_eq!(l.entries, log().entries);
    assert_eq!(take_stairs(&m, Position { x: -1, y: 1 }, &mut l, true), RunState::NextLevel);
    assert_eq!(take_stairs(&m, Position { x: -1, y: 1 }, &mut l, false), RunState::Ticking);
    assert_eq!(l.entries.len(), 2);
    assert_eq!(l.entries[1], "There is no way up from here.");
    let monster = e(5);
    m.tile_content[2].push(monster);
    let hp = Pool { current: 5, max: 10 };
    assert_eq!(skip_turn(&m, &vec![Position { x: -1, y: 1 }], &vec![monster], None, hp).1, hp);
    assert_eq!(skip_turn(&m, &vec![Position { x: 5, y: -1 }], &vec![monster], None, hp).1, hp);
    assert_eq!(skip_turn(&m, &vec![Position { x: 3, y: 0 }], &vec![monster], None, hp).1.current, 6);
}
