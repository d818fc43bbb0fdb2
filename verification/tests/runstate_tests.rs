use rusty_roguelike::components::Position;
use rusty_roguelike::entity::EntityId;
use rusty_roguelike::runstate::{
    tick_decide, tick_plan, CheatMenuResult, GameOverResult, ItemMenuResult, MainMenuResult,
    MainMenuSelection, MapgenState, RunState, TickEffect, TickEvent, TickWork,
};

fn mapgen() -> MapgenState {
    MapgenState { next_state: None, index: 0, history: Vec::new() }
}

const ITEM: EntityId = EntityId { index: 7, generation: 1 };

#[test]
fn plans() {
    let mg = mapgen();
    let p = tick_plan(RunState::MainMenu { menu_selection: MainMenuSelection::NewGame }, &mg, false);
    assert!(!p.draw_world);
    assert_eq!(p.work, TickWork::ShowMainMenu);
    let p = tick_plan(RunState::GameOver, &mg, false);
    assert!(!p.draw_world);
    let p = tick_plan(RunState::PreRun, &mg, false);
    assert!(p.draw_world);
    assert_eq!(p.work, TickWork::RunSystems);
    assert_eq!(tick_plan(RunState::AwaitingInput, &mg, false).work, TickWork::ReadPlayerInput);
    assert_eq!(
        tick_plan(RunState::ShowTargeting { range: 6, item: ITEM }, &mg, false).work,
        TickWork::ShowTargeting { range: 6 }
    );
    assert_eq!(
        tick_plan(RunState::MagicMapReveal { row: 3 }, &mg, false).work,
        TickWork::RevealRow { row: 3 }
    );
    assert_eq!(tick_plan(RunState::SaveGame, &mg, false).work, TickWork::Nothing);
    assert_eq!(
        tick_plan(RunState::MapGeneration, &mg, true).work,
        TickWork::MapGenFrame { draw_index: None }
    );
}

#[test]
fn prerun_and_input() {
    let mut mg = mapgen();
    let o = tick_decide(RunState::PreRun, TickEvent::Proceed, &mut mg, false);
    assert_eq!(o.next, RunState::AwaitingInput);
    assert_eq!(o.effect, None);
    let o = tick_decide(RunState::AwaitingInput, TickEvent::PlayerInput(RunState::ShowInventory), &mut mg, false);
    assert_eq!(o.next, RunState::ShowInventory);
}

#[test]
fn ticking_follows_the_systems() {
    let mut mg = mapgen();
    let o = tick_decide(RunState::Ticking, TickEvent::SystemsRan(RunState::AwaitingInput), &mut mg, false);
    assert_eq!(o.next, RunState::AwaitingInput);
    let o = tick_decide(RunState::Ticking, TickEvent::SystemsRan(RunState::MagicMapReveal { row: 9 }), &mut mg, false);
    assert_eq!(o.next, RunState::MagicMapReveal { row: 0 });
    let o = tick_decide(RunState::Ticking, TickEvent::SystemsRan(RunState::Ticking), &mut mg, false);
    assert_eq!(o.next, RunState::Ticking);
}

#[test]
fn inventory_menu() {
    let mut mg = mapgen();
    let cancel = TickEvent::ItemMenu { result: ItemMenuResult::Cancel, item: None, ranged: None };
    assert_eq!(tick_decide(RunState::ShowInventory, cancel, &mut mg, false).next, RunState::AwaitingInput);
    let nothing = TickEvent::ItemMenu { result: ItemMenuResult::NoResponse, item: None, ranged: None };
    let o = tick_decide(RunState::ShowInventory, nothing, &mut mg, false);
    assert_eq!((o.next, o.effect), (RunState::ShowInventory, None));
    let ranged = TickEvent::ItemMenu { result: ItemMenuResult::Selected, item: Some(ITEM), ranged: Some(6) };
    let o = tick_decide(RunState::ShowInventory, ranged, &mut mg, false);
    assert_eq!(o.next, RunState::ShowTargeting { range: 6, item: ITEM });
    assert_eq!(o.effect, None);
    let plain = TickEvent::ItemMenu { result: ItemMenuResult::Selected, item: Some(ITEM), ranged: None };
    let o = tick_decide(RunState::ShowInventory, plain, &mut mg, false);
    assert_eq!(o.next, RunState::Ticking);
    assert_eq!(o.effect, Some(TickEffect::UseItem { item: ITEM, target: None }));
}

#[test]
fn drop_remove_and_target() {
    let mut mg = mapgen();
    let sel = TickEvent::ItemMenu { result: ItemMenuResult::Selected, item: Some(ITEM), ranged: Some(3) };
    let o = tick_decide(RunState::ShowDropItem, sel, &mut mg, false);
    assert_eq!((o.next, o.effect), (RunState::Ticking, Some(TickEffect::DropItem { item: ITEM })));
    let o = tick_decide(RunState::ShowRemoveItem, sel, &mut mg, false);
    assert_eq!((o.next, o.effect), (RunState::Ticking, Some(TickEffect::RemoveItem { item: ITEM })));
    let target = Some(Position { x: 4, y: 5 });
    let o = tick_decide(
        RunState::ShowTargeting { range: 6, item: ITEM },
        TickEvent::Targeting { result: ItemMenuResult::Selected, target },
        &mut mg,
        false,
    );
    assert_eq!((o.next, o.effect), (RunState::Ticking, Some(TickEffect::UseItem { item: ITEM, target })));
    let o = tick_decide(
        RunState::ShowTargeting { range: 6, item: ITEM },
        TickEvent::Targeting { result: ItemMenuResult::Cancel, target: None },
        &mut mg,
        false,
    );
    assert_eq!(o.next, RunState::AwaitingInput);
}

#[test]
fn main_menu_and_game_over() {
    let mut mg = mapgen();
    let menu = RunState::MainMenu { menu_selection: MainMenuSelection::NewGame };
    let o = tick_decide(menu, TickEvent::MainMenu(MainMenuResult::NoSelection { selected: MainMenuSelection::Quit }), &mut mg, false);
    assert_eq!(o.next, RunState::MainMenu { menu_selection: MainMenuSelection::Quit });
    let o = tick_decide(menu, TickEvent::MainMenu(MainMenuResult::Selected { selected: MainMenuSelection::NewGame }), &mut mg, false);
    assert_eq!(o.next, RunState::PreRun);
    let o = tick_decide(menu, TickEvent::MainMenu(MainMenuResult::Selected { selected: MainMenuSelection::LoadGame }), &mut mg, false);
    assert_eq!((o.next, o.effect), (RunState::AwaitingInput, Some(TickEffect::LoadGame)));
    let o = tick_decide(menu, TickEvent::MainMenu(MainMenuResult::Selected { selected: MainMenuSelection::Quit }), &mut mg, false);
    assert_eq!(o.effect, Some(TickEffect::Quit));
    let o = tick_decide(RunState::GameOver, TickEvent::GameOver(GameOverResult::QuitToMenu), &mut mg, false);
    assert_eq!(o.next, RunState::MainMenu { menu_selection: MainMenuSelection::NewGame });
    assert_eq!(o.effect, Some(TickEffect::GameOverCleanup));
    let o = tick_decide(RunState::GameOver, TickEvent::GameOver(GameOverResult::NoSelection), &mut mg, false);
    assert_eq!((o.next, o.effect), (RunState::GameOver, None));
}

#[test]
fn saving() {
    let mut mg = mapgen();
    let o = tick_decide(RunState::SaveGame, TickEvent::Proceed, &mut mg, false);
    assert_eq!(o.next, RunState::MainMenu { menu_selection: MainMenuSelection::LoadGame });
    assert_eq!(o.effect, Some(TickEffect::SaveGame));
}

#[test]
fn level_change_goes_through_map_generation() {
    let mut mg = mapgen();
    let o = tick_decide(RunState::NextLevel, TickEvent::Proceed, &mut mg, false);
    assert_eq!(o.next, RunState::MapGeneration);
    assert_eq!(o.effect, Some(TickEffect::GotoLevel { offset: 1 }));
    assert_eq!(mg.next_state, Some(RunState::PreRun));
    let o = tick_decide(RunState::MapGeneration, TickEvent::MapGenFrame { frame_due: false }, &mut mg, false);
    assert_eq!(o.next, RunState::PreRun);

    let mut mg = mapgen();
    let o = tick_decide(RunState::PreviousLevel, TickEvent::Proceed, &mut mg, false);
    assert_eq!(o.effect, Some(TickEffect::GotoLevel { offset: -1 }));
    assert_eq!(mg.next_state, Some(RunState::PreRun));

    let mut mg = mapgen();
    let o = tick_decide(RunState::ShowCheatMenu, TickEvent::CheatMenu(CheatMenuResult::TeleportToExit), &mut mg, false);
    assert_eq!((o.next, o.effect), (RunState::MapGeneration, Some(TickEffect::GotoLevel { offset: 1 })));
    assert_eq!(mg.next_state, Some(RunState::PreRun));
    let o = tick_decide(RunState::ShowCheatMenu, TickEvent::CheatMenu(CheatMenuResult::Cancel), &mut mg, false);
    assert_eq!(o.next, RunState::AwaitingInput);
}

#[test]
fn visualised_map_generation_steps_through_snapshots() {
    let mut mg = MapgenState {
        next_state: Some(RunState::PreRun),
        index: 0,
        history: vec![
            rusty_roguelike::map::GameMap::new(1, 1, 1, "a"),
            rusty_roguelike::map::GameMap::new(1, 1, 1, "b"),
        ],
    };
    assert_eq!(
        tick_plan(RunState::MapGeneration, &mg, true).work,
        TickWork::MapGenFrame { draw_index: Some(0) }
    );
    let o = tick_decide(RunState::MapGeneration, TickEvent::MapGenFrame { frame_due: false }, &mut mg, true);
    assert_eq!((o.next, mg.index), (RunState::MapGeneration, 0));
    let o = tick_decide(RunState::MapGeneration, TickEvent::MapGenFrame { frame_due: true }, &mut mg, true);
    assert_eq!((o.next, mg.index), (RunState::MapGeneration, 1));
    let o = tick_decide(RunState::MapGeneration, TickEvent::MapGenFrame { frame_due: true }, &mut mg, true);
    assert_eq!((o.next, mg.index), (RunState::PreRun, 2));
}

#[test]
fn magic_map_walks_the_rows() {
    let mut mg = mapgen();
    let mut state = RunState::MagicMapReveal { row: 0 };
    let mut rows = Vec::new();
    for _ in 0..3 {
        if let RunState::MagicMapReveal { row } = state {
            rows.push(row);
        }
        state = tick_decide(state, TickEvent::MapRevealed { map_height: 3 }, &mut mg, false).next;
    }
    assert_eq!(rows, vec![0, 1, 2]);
    assert_eq!(state, RunState::Ticking);
}

#[test]
fn restarting_map_generation() {
    let mut mg = MapgenState { next_state: Some(RunState::PreRun), index: 4, history: Vec::new() };
    mg.history.push(rusty_roguelike::map::GameMap::new(1, 2, 2, "old"));
    let fresh = vec![
        rusty_roguelike::map::GameMap::new(2, 3, 3, "a"),
        rusty_roguelike::map::GameMap::new(2, 3, 3, "b"),
    ];
    assert!(!mg.restart(Some(fresh)));
    assert_eq!(mg.index, 0);
    assert_eq!(mg.history.len(), 2);
    assert_eq!(mg.history[1].name, "b");
    assert_eq!(mg.next_state, Some(RunState::PreRun));
    mg.index = 1;
    assert!(mg.restart(None));
    assert_eq!(mg.index, 0);
    assert!(mg.history.is_empty());
}

#[test]
fn map_generation_without_visualiser_ignores_the_index() {
    let mut mg = MapgenState { next_state: Some(RunState::PreRun), index: usize::MAX, history: Vec::new() };
    let o = tick_decide(RunState::MapGeneration, TickEvent::MapGenFrame { frame_due: true }, &mut mg, false);
    assert_eq!(o.next, RunState::PreRun);
    assert_eq!(mg.index, usize::MAX);
}
