use vstd::prelude::*;
use crate::components::Position;
use crate::entity::EntityId;
use crate::map::GameMap;

verus! {

/// The entries of the main menu.
#[derive(Clone, Copy, Debug, PartialEq, Eq, Structural)]
pub enum MainMenuSelection {
    NewGame,
    LoadGame,
    Quit,
}

/// What the game is doing this frame.
#[derive(Clone, Copy, Debug, PartialEq, Eq, Structural)]
pub enum RunState {
    AwaitingInput,
    PreRun,
    Ticking,
    ShowInventory,
    ShowDropItem,
    ShowTargeting { range: i32, item: EntityId },
    MainMenu { menu_selection: MainMenuSelection },
    SaveGame,
    NextLevel,
    PreviousLevel,
    ShowRemoveItem,
    GameOver,
    MagicMapReveal { row: i32 },
    MapGeneration,
    ShowCheatMenu,
}

/// The answer of an item menu this frame.
#[derive(Clone, Copy, Debug, PartialEq, Eq, Structural)]
pub enum ItemMenuResult {
    Cancel,
    NoResponse,
    Selected,
}

/// The answer of the main menu this frame.
#[derive(Clone, Copy, Debug, PartialEq, Eq, Structural)]
pub enum MainMenuResult {
    NoSelection { selected: MainMenuSelection },
    Selected { selected: MainMenuSelection },
}

/// The answer of the game-over screen this frame.
#[derive(Clone, Copy, Debug, PartialEq, Eq, Structural)]
pub enum GameOverResult {
    NoSelection,
    QuitToMenu,
}

/// The answer of the cheat menu this frame.
#[derive(Clone, Copy, Debug, PartialEq, Eq, Structural)]
pub enum CheatMenuResult {
    NoResponse,
    Cancel,
    TeleportToExit,
}

/// Map-generation progress kept across frames: the state to enter once generation is
/// shown, the snapshot being shown, and the snapshots taken while building the level.
pub struct MapgenState {
    pub next_state: Option<RunState>,
    pub index: usize,
    pub history: Vec<GameMap>,
}

impl MapgenState {
    /// Starts showing the generation of a new level: from the first snapshot, over the
    /// snapshots taken while building it. Returns whether none were handed over (the
    /// level was not built but revisited), in which case there is nothing to show.
    pub fn restart(&mut self, history: Option<Vec<GameMap>>) -> (revisited: bool)
        ensures
            revisited == history is None,
            final(self).index == 0,
            final(self).next_state == old(self).next_state,
            match history {
                Some(h) => final(self).history@ == h@,
                None => final(self).history@.len() == 0,
            },
    {
        self.index = 0;
        self.history.clear();
        match history {
            Some(h) => {
                self.history = h;
                false
            },
            None => true,
        }
    }
}

/// The outside work a frame needs before its next state can be decided.
#[derive(Clone, Copy, Debug, PartialEq, Eq, Structural)]
pub enum TickWork {
    RunSystems,
    ReadPlayerInput,
    ShowInventoryMenu,
    ShowDropMenu,
    ShowRemoveMenu,
    ShowTargeting { range: i32 },
    ShowMainMenu,
    ShowGameOver,
    ShowCheatMenu,
    RevealRow { row: i32 },
    MapGenFrame { draw_index: Option<usize> },
    Nothing,
}

/// What a frame asks of the outside world: whether to draw the level and interface,
/// and the work whose outcome decides the next state.
#[derive(Clone, Copy, Debug, PartialEq, Eq, Structural)]
pub struct TickPlan {
    pub draw_world: bool,
    pub work: TickWork,
}

/// The outcome of a frame's outside work.
#[derive(Clone, Copy, Debug, PartialEq, Eq, Structural)]
pub enum TickEvent {
    Proceed,
    PlayerInput(RunState),
    SystemsRan(RunState),
    ItemMenu { result: ItemMenuResult, item: Option<EntityId>, ranged: Option<i32> },
    Targeting { result: ItemMenuResult, target: Option<Position> },
    MainMenu(MainMenuResult),
    GameOver(GameOverResult),
    MapRevealed { map_height: i32 },
    MapGenFrame { frame_due: bool },
    CheatMenu(CheatMenuResult),
}

/// A change to the world that a frame's decision calls for.
#[derive(Clone, Copy, Debug, PartialEq, Eq, Structural)]
pub enum TickEffect {
    UseItem { item: EntityId, target: Option<Position> },
    DropItem { item: EntityId },
    RemoveItem { item: EntityId },
    LoadGame,
    Quit,
    GameOverCleanup,
    SaveGame,
    GotoLevel { offset: i32 },
}

/// The decision of a frame: the next state and the change to make to the world.
#[derive(Clone, Copy, Debug, PartialEq, Eq, Structural)]
pub struct TickOutcome {
    pub next: RunState,
    pub effect: Option<TickEffect>,
}

/// Whether the level and interface are drawn in this state (not on the main menu or
/// the game-over screen).
pub open spec fn spec_draws_world(state: RunState) -> bool {
    !(state is MainMenu || state is GameOver)
}

/// The outside work this state needs; map generation draws the snapshot being shown
/// when the visualiser is on and snapshots remain.
pub open spec fn spec_tick_work(state: RunState, index: int, history_len: int, show_visualizer: bool) -> TickWork {
    match state {
        RunState::PreRun | RunState::Ticking => TickWork::RunSystems,
        RunState::AwaitingInput => TickWork::ReadPlayerInput,
        RunState::ShowInventory => TickWork::ShowInventoryMenu,
        RunState::ShowDropItem => TickWork::ShowDropMenu,
        RunState::ShowRemoveItem => TickWork::ShowRemoveMenu,
        RunState::ShowTargeting { range, item } => TickWork::ShowTargeting { range },
        RunState::MainMenu { .. } => TickWork::ShowMainMenu,
        RunState::GameOver => TickWork::ShowGameOver,
        RunState::ShowCheatMenu => TickWork::ShowCheatMenu,
        RunState::MagicMapReveal { row } => TickWork::RevealRow { row },
        RunState::MapGeneration => TickWork::MapGenFrame {
            draw_index: if show_visualizer && index < history_len {
                Some(index as usize)
            } else {
                None
            },
        },
        RunState::SaveGame | RunState::NextLevel | RunState::PreviousLevel => TickWork::Nothing,
    }
}

/// The event is the outcome of the work this state asked for, and holds what the
/// decision reads: a selected item, a map row in range, a state to enter after map
/// generation.
pub open spec fn event_fits(state: RunState, event: TickEvent, mg: MapgenState, show_visualizer: bool) -> bool {
    match state {
        RunState::AwaitingInput => event is PlayerInput,
        RunState::Ticking => event is SystemsRan,
        RunState::PreRun | RunState::SaveGame | RunState::NextLevel | RunState::PreviousLevel => event is Proceed,
        RunState::ShowInventory | RunState::ShowDropItem | RunState::ShowRemoveItem => match event {
            TickEvent::ItemMenu { result, item, ranged } => result == ItemMenuResult::Selected ==> item is Some,
            _ => false,
        },
        RunState::ShowTargeting { .. } => event is Targeting,
        RunState::MainMenu { .. } => event is MainMenu,
        RunState::GameOver => event is GameOver,
        RunState::ShowCheatMenu => event is CheatMenu,
        RunState::MagicMapReveal { row } => match event {
            TickEvent::MapRevealed { map_height } => row < map_height,
            _ => false,
        },
        RunState::MapGeneration => match event {
            TickEvent::MapGenFrame { frame_due } => {
                &&& show_visualizer ==> mg.index < usize::MAX
                &&& (!show_visualizer || (frame_due && mg.index + 1 >= mg.history@.len()))
                    ==> mg.next_state is Some
            },
            _ => false,
        },
    }
}

/// Whether map generation moves on this frame: at once without the visualiser, else
/// when a frame is due and the last snapshot has been shown.
pub open spec fn spec_mapgen_done(event: TickEvent, mg: MapgenState, show_visualizer: bool) -> bool {
    !show_visualizer || (event->frame_due && mg.index + 1 >= mg.history@.len())
}

/// The decision of a frame in `state` given the outcome `event` of its outside work.
pub open spec fn spec_tick_outcome(state: RunState, event: TickEvent, mg: MapgenState, show_visualizer: bool) -> TickOutcome {
    let stay = TickOutcome { next: state, effect: None };
    let to_input = TickOutcome { next: RunState::AwaitingInput, effect: None };
    match state {
        RunState::PreRun => to_input,
        RunState::AwaitingInput => TickOutcome { next: event->PlayerInput_0, effect: None },
        RunState::Ticking => TickOutcome {
            next: match event->SystemsRan_0 {
                RunState::AwaitingInput => RunState::AwaitingInput,
                RunState::MagicMapReveal { .. } => RunState::MagicMapReveal { row: 0 },
                _ => RunState::Ticking,
            },
            effect: None,
        },
        RunState::ShowInventory => match event->ItemMenu_result {
            ItemMenuResult::Cancel => to_input,
            ItemMenuResult::NoResponse => stay,
            ItemMenuResult::Selected => match event->ItemMenu_ranged {
                Some(range) => TickOutcome {
                    next: RunState::ShowTargeting { range, item: event->ItemMenu_item->Some_0 },
                    effect: None,
                },
                None => TickOutcome {
                    next: RunState::Ticking,
                    effect: Some(TickEffect::UseItem { item: event->ItemMenu_item->Some_0, target: None }),
                },
            },
        },
        RunState::ShowDropItem => match event->ItemMenu_result {
            ItemMenuResult::Cancel => to_input,
            ItemMenuResult::NoResponse => stay,
            ItemMenuResult::Selected => TickOutcome {
                next: RunState::Ticking,
                effect: Some(TickEffect::DropItem { item: event->ItemMenu_item->Some_0 }),
            },
        },
        RunState::ShowRemoveItem => match event->ItemMenu_result {
            ItemMenuResult::Cancel => to_input,
            ItemMenuResult::NoResponse => stay,
            ItemMenuResult::Selected => TickOutcome {
                next: RunState::Ticking,
                effect: Some(TickEffect::RemoveItem { item: event->ItemMenu_item->Some_0 }),
            },
        },
        RunState::ShowTargeting { range, item } => match event->Targeting_result {
            ItemMenuResult::Cancel => to_input,
            ItemMenuResult::NoResponse => stay,
            ItemMenuResult::Selected => TickOutcome {
                next: RunState::Ticking,
                effect: Some(TickEffect::UseItem { item, target: event->Targeting_target }),
            },
        },
        RunState::MainMenu { .. } => match event->MainMenu_0 {
            MainMenuResult::NoSelection { selected } => TickOutcome {
                next: RunState::MainMenu { menu_selection: selected },
                effect: None,
            },
            MainMenuResult::Selected { selected } => match selected {
                MainMenuSelection::NewGame => TickOutcome { next: RunState::PreRun, effect: None },
                MainMenuSelection::LoadGame => TickOutcome {
                    next: RunState::AwaitingInput,
                    effect: Some(TickEffect::LoadGame),
                },
                MainMenuSelection::Quit => TickOutcome { next: state, effect: Some(TickEffect::Quit) },
            },
        },
        RunState::GameOver => match event->GameOver_0 {
            GameOverResult::NoSelection => stay,
            GameOverResult::QuitToMenu => TickOutcome {
                next: RunState::MainMenu { menu_selection: MainMenuSelection::NewGame },
                effect: Some(TickEffect::GameOverCleanup),
            },
        },
        RunState::SaveGame => TickOutcome {
            next: RunState::MainMenu { menu_selection: MainMenuSelection::LoadGame },
            effect: Some(TickEffect::SaveGame),
        },
        RunState::NextLevel => TickOutcome {
            next: RunState::MapGeneration,
            effect: Some(TickEffect::GotoLevel { offset: 1i32 }),
        },
        RunState::PreviousLevel => TickOutcome {
            next: RunState::MapGeneration,
            effect: Some(TickEffect::GotoLevel { offset: -1i32 }),
        },
        RunState::MagicMapReveal { row } => TickOutcome {
            next: if row == event->map_height - 1 {
                RunState::Ticking
            } else {
                RunState::MagicMapReveal { row: (row + 1) as i32 }
            },
            effect: None,
        },
        RunState::MapGeneration => if spec_mapgen_done(event, mg, show_visualizer) {
            TickOutcome { next: mg.next_state->Some_0, effect: None }
        } else {
            stay
        },
        RunState::ShowCheatMenu => match event->CheatMenu_0 {
            CheatMenuResult::Cancel => to_input,
            CheatMenuResult::NoResponse => stay,
            CheatMenuResult::TeleportToExit => TickOutcome {
                next: RunState::MapGeneration,
                effect: Some(TickEffect::GotoLevel { offset: 1i32 }),
            },
        },
    }
}

/// The state to enter once map generation has been shown, after this frame.
pub open spec fn spec_next_after_mapgen(state: RunState, event: TickEvent, mg: MapgenState) -> Option<RunState> {
    match state {
        RunState::NextLevel | RunState::PreviousLevel => Some(RunState::PreRun),
        RunState::ShowCheatMenu => if event->CheatMenu_0 == CheatMenuResult::TeleportToExit {
            Some(RunState::PreRun)
        } else {
            mg.next_state
        },
        _ => mg.next_state,
    }
}

/// The snapshot shown after this frame: map generation with the visualiser on moves to
/// the next one each time a frame is due.
pub open spec fn spec_index_after(state: RunState, event: TickEvent, mg: MapgenState, show_visualizer: bool) -> int {
    if state == RunState::MapGeneration && show_visualizer && event->frame_due {
        mg.index + 1
    } else {
        mg.index as int
    }
}

/// What a frame in `state` must do before deciding: draw the level unless on the main
/// menu or game-over screen, and gather the outcome the decision reads.
pub fn tick_plan(state: RunState, mapgen: &MapgenState, show_visualizer: bool) -> (plan: TickPlan)
    ensures
        plan.draw_world == spec_draws_world(state),
        plan.work == spec_tick_work(state, mapgen.index as int, mapgen.history@.len() as int, show_visualizer),
        state is MainMenu || state is GameOver ==> !plan.draw_world,
        !(state is MainMenu || state is GameOver) ==> plan.draw_world,
        state == RunState::PreRun || state == RunState::Ticking ==> plan.work == TickWork::RunSystems,
        state == RunState::AwaitingInput ==> plan.work == TickWork::ReadPlayerInput,
        state == RunState::ShowInventory ==> plan.work == TickWork::ShowInventoryMenu,
        state == RunState::ShowDropItem ==> plan.work == TickWork::ShowDropMenu,
        state == RunState::ShowRemoveItem ==> plan.work == TickWork::ShowRemoveMenu,
        state matches RunState::ShowTargeting { range, .. } ==> plan.work == (TickWork::ShowTargeting { range }),
        state is MainMenu ==> plan.work == TickWork::ShowMainMenu,
        state == RunState::GameOver ==> plan.work == TickWork::ShowGameOver,
        state == RunState::ShowCheatMenu ==> plan.work == TickWork::ShowCheatMenu,
        state matches RunState::MagicMapReveal { row } ==> plan.work == (TickWork::RevealRow { row }),
        state == RunState::MapGeneration && show_visualizer && mapgen.index < mapgen.history@.len()
            ==> plan.work == (TickWork::MapGenFrame { draw_index: Some(mapgen.index) }),
        state == RunState::MapGeneration && !(show_visualizer && mapgen.index < mapgen.history@.len())
            ==> plan.work == (TickWork::MapGenFrame { draw_index: None }),
        state == RunState::SaveGame || state == RunState::NextLevel || state == RunState::PreviousLevel
            ==> plan.work == TickWork::Nothing,
{
    let draw_world = match state {
        RunState::MainMenu { .. } => false,
        RunState::GameOver => false,
        _ => true,
    };
    let work = match state {
        RunState::PreRun => TickWork::RunSystems,
        RunState::Ticking => TickWork::RunSystems,
        RunState::AwaitingInput => TickWork::ReadPlayerInput,
        RunState::ShowInventory => TickWork::ShowInventoryMenu,
        RunState::ShowDropItem => TickWork::ShowDropMenu,
        RunState::ShowRemoveItem => TickWork::ShowRemoveMenu,
        RunState::ShowTargeting { range, item } => TickWork::ShowTargeting { range },
        RunState::MainMenu { .. } => TickWork::ShowMainMenu,
        RunState::GameOver => TickWork::ShowGameOver,
        RunState::ShowCheatMenu => TickWork::ShowCheatMenu,
        RunState::MagicMapReveal { row } => TickWork::RevealRow { row },
        RunState::MapGeneration => {
            if show_visualizer && mapgen.index < mapgen.history.len() {
                TickWork::MapGenFrame { draw_index: Some(mapgen.index) }
            } else {
                TickWork::MapGenFrame { draw_index: None }
            }
        },
        RunState::SaveGame => TickWork::Nothing,
        RunState::NextLevel => TickWork::Nothing,
        RunState::PreviousLevel => TickWork::Nothing,
    };
    TickPlan { draw_world, work }
}

/// Decides a frame: the next state, the change to make to the world, and the map
/// generation progress, from the current state and the outcome of its outside work.
pub fn tick_decide(state: RunState, event: TickEvent, mapgen: &mut MapgenState, show_visualizer: bool) -> (out: TickOutcome)
    requires
        event_fits(state, event, *old(mapgen), show_visualizer),
    ensures
        out == spec_tick_outcome(state, event, *old(mapgen), show_visualizer),
        final(mapgen).next_state == spec_next_after_mapgen(state, event, *old(mapgen)),
        final(mapgen).index == spec_index_after(state, event, *old(mapgen), show_visualizer),
        final(mapgen).history == old(mapgen).history,
        state == RunState::PreRun ==> out == (TickOutcome { next: RunState::AwaitingInput, effect: None }),
        state == RunState::AwaitingInput ==> (event matches TickEvent::PlayerInput(s) && out == (TickOutcome { next: s, effect: None })),
        state == RunState::Ticking && event == TickEvent::SystemsRan(RunState::AwaitingInput)
            ==> out == (TickOutcome { next: RunState::AwaitingInput, effect: None }),
        state == RunState::Ticking && (event matches TickEvent::SystemsRan(s) && s is MagicMapReveal)
            ==> out == (TickOutcome { next: RunState::MagicMapReveal { row: 0 }, effect: None }),
        state == RunState::Ticking && (event matches TickEvent::SystemsRan(s) && s != RunState::AwaitingInput && !(s is MagicMapReveal))
            ==> out == (TickOutcome { next: RunState::Ticking, effect: None }),
        (state == RunState::ShowInventory || state == RunState::ShowDropItem || state == RunState::ShowRemoveItem)
            && (event matches TickEvent::ItemMenu { result, .. } && result == ItemMenuResult::Cancel)
            ==> out == (TickOutcome { next: RunState::AwaitingInput, effect: None }),
        (state == RunState::ShowInventory || state == RunState::ShowDropItem || state == RunState::ShowRemoveItem)
            && (event matches TickEvent::ItemMenu { result, .. } && result == ItemMenuResult::NoResponse)
            ==> out == (TickOutcome { next: state, effect: None }),
        state == RunState::ShowInventory && (event matches TickEvent::ItemMenu { result, item, ranged }
            && result == ItemMenuResult::Selected && ranged is None)
            ==> out == (TickOutcome { next: RunState::Ticking, effect: Some(TickEffect::UseItem { item: event->ItemMenu_item->Some_0, target: None }) }),
        state == RunState::ShowInventory && (event matches TickEvent::ItemMenu { result, item, ranged }
            && result == ItemMenuResult::Selected && ranged is Some)
            ==> out == (TickOutcome {
                next: RunState::ShowTargeting { range: event->ItemMenu_ranged->Some_0, item: event->ItemMenu_item->Some_0 },
                effect: None,
            }),
        state == RunState::ShowDropItem && (event matches TickEvent::ItemMenu { result, .. } && result == ItemMenuResult::Selected)
            ==> out == (TickOutcome { next: RunState::Ticking, effect: Some(TickEffect::DropItem { item: event->ItemMenu_item->Some_0 }) }),
        state == RunState::ShowRemoveItem && (event matches TickEvent::ItemMenu { result, .. } && result == ItemMenuResult::Selected)
            ==> out == (TickOutcome { next: RunState::Ticking, effect: Some(TickEffect::RemoveItem { item: event->ItemMenu_item->Some_0 }) }),
        (state matches RunState::ShowTargeting { item, .. } && event matches TickEvent::Targeting { result, target }
            && result == ItemMenuResult::Selected)
            ==> out == (TickOutcome { next: RunState::Ticking, effect: Some(TickEffect::UseItem { item: state->item, target: event->Targeting_target }) }),
        state is ShowTargeting && (event matches TickEvent::Targeting { result, .. } && result == ItemMenuResult::Cancel)
            ==> out == (TickOutcome { next: RunState::AwaitingInput, effect: None }),
        state is MainMenu && event == TickEvent::MainMenu(MainMenuResult::Selected { selected: MainMenuSelection::NewGame })
            ==> out == (TickOutcome { next: RunState::PreRun, effect: None }),
        state is MainMenu && event == TickEvent::MainMenu(MainMenuResult::Selected { selected: MainMenuSelection::LoadGame })
            ==> out == (TickOutcome { next: RunState::AwaitingInput, effect: Some(TickEffect::LoadGame) }),
        state is MainMenu && event == TickEvent::MainMenu(MainMenuResult::Selected { selected: MainMenuSelection::Quit })
            ==> out.effect == Some(TickEffect::Quit),
        state is MainMenu && (event matches TickEvent::MainMenu(MainMenuResult::NoSelection { selected }))
            ==> out == (TickOutcome { next: RunState::MainMenu { menu_selection: event->MainMenu_0->NoSelection_selected }, effect: None }),
        state == RunState::GameOver && event == TickEvent::GameOver(GameOverResult::QuitToMenu)
            ==> out == (TickOutcome { next: RunState::MainMenu { menu_selection: MainMenuSelection::NewGame }, effect: Some(TickEffect::GameOverCleanup) }),
        state == RunState::GameOver && event == TickEvent::GameOver(GameOverResult::NoSelection)
            ==> out == (TickOutcome { next: RunState::GameOver, effect: None }),
        state == RunState::SaveGame
            ==> out == (TickOutcome { next: RunState::MainMenu { menu_selection: MainMenuSelection::LoadGame }, effect: Some(TickEffect::SaveGame) }),
        state == RunState::NextLevel
            ==> out == (TickOutcome { next: RunState::MapGeneration, effect: Some(TickEffect::GotoLevel { offset: 1 }) })
                && final(mapgen).next_state == Some(RunState::PreRun),
        state == RunState::PreviousLevel
            ==> out == (TickOutcome { next: RunState::MapGeneration, effect: Some(TickEffect::GotoLevel { offset: -1i32 }) })
                && final(mapgen).next_state == Some(RunState::PreRun),
        state == RunState::ShowCheatMenu && event == TickEvent::CheatMenu(CheatMenuResult::TeleportToExit)
            ==> out == (TickOutcome { next: RunState::MapGeneration, effect: Some(TickEffect::GotoLevel { offset: 1 }) })
                && final(mapgen).next_state == Some(RunState::PreRun),
        state == RunState::ShowCheatMenu && event == TickEvent::CheatMenu(CheatMenuResult::Cancel)
            ==> out == (TickOutcome { next: RunState::AwaitingInput, effect: None }),
        (state matches RunState::MagicMapReveal { row } && event matches TickEvent::MapRevealed { map_height })
            ==> out == (TickOutcome {
                next: if state->row == event->map_height - 1 { RunState::Ticking } else { RunState::MagicMapReveal { row: (state->row + 1) as i32 } },
                effect: None,
            }),
        state == RunState::MapGeneration && !show_visualizer ==> out.next == old(mapgen).next_state->Some_0 && out.effect is None,
        state == RunState::MapGeneration && show_visualizer && (event matches TickEvent::MapGenFrame { frame_due } && !frame_due)
            ==> out == (TickOutcome { next: RunState::MapGeneration, effect: None }) && final(mapgen).index == old(mapgen).index,
        state == RunState::MapGeneration && show_visualizer && (event matches TickEvent::MapGenFrame { frame_due } && frame_due)
            ==> final(mapgen).index == old(mapgen).index + 1
                && (old(mapgen).index + 1 >= old(mapgen).history@.len() ==> out.next == old(mapgen).next_state->Some_0)
                && (old(mapgen).index + 1 < old(mapgen).history@.len() ==> out.next == RunState::MapGeneration),
{
    match state {
        RunState::PreRun => TickOutcome { next: RunState::AwaitingInput, effect: None },
        RunState::AwaitingInput => match event {
            TickEvent::PlayerInput(next) => TickOutcome { next, effect: None },
            _ => TickOutcome { next: state, effect: None },
        },
        RunState::Ticking => {
            let next = match event {
                TickEvent::SystemsRan(RunState::AwaitingInput) => RunState::AwaitingInput,
                TickEvent::SystemsRan(RunState::MagicMapReveal { .. }) => RunState::MagicMapReveal { row: 0 },
                _ => RunState::Ticking,
            };
            TickOutcome { next, effect: None }
        },
        RunState::ShowInventory => match event {
            TickEvent::ItemMenu { result: ItemMenuResult::Cancel, .. } => TickOutcome {
                next: RunState::AwaitingInput,
                effect: None,
            },
            TickEvent::ItemMenu { result: ItemMenuResult::Selected, item: Some(item), ranged } => match ranged {
                Some(range) => TickOutcome { next: RunState::ShowTargeting { range, item }, effect: None },
                None => TickOutcome {
                    next: RunState::Ticking,
                    effect: Some(TickEffect::UseItem { item, target: None }),
                },
            },
            _ => TickOutcome { next: state, effect: None },
        },
        RunState::ShowDropItem => match event {
            TickEvent::ItemMenu { result: ItemMenuResult::Cancel, .. } => TickOutcome {
                next: RunState::AwaitingInput,
                effect: None,
            },
            TickEvent::ItemMenu { result: ItemMenuResult::Selected, item: Some(item), .. } => TickOutcome {
                next: RunState::Ticking,
                effect: Some(TickEffect::DropItem { item }),
            },
            _ => TickOutcome { next: state, effect: None },
        },
        RunState::ShowRemoveItem => match event {
            TickEvent::ItemMenu { result: ItemMenuResult::Cancel, .. } => TickOutcome {
                next: RunState::AwaitingInput,
                effect: None,
            },
            TickEvent::ItemMenu { result: ItemMenuResult::Selected, item: Some(item), .. } => TickOutcome {
                next: RunState::Ticking,
                effect: Some(TickEffect::RemoveItem { item }),
            },
            _ => TickOutcome { next: state, effect: None },
        },
        RunState::ShowTargeting { range, item } => match event {
            TickEvent::Targeting { result: ItemMenuResult::Cancel, .. } => TickOutcome {
                next: RunState::AwaitingInput,
                effect: None,
            },
            TickEvent::Targeting { result: ItemMenuResult::Selected, target } => TickOutcome {
                next: RunState::Ticking,
                effect: Some(TickEffect::UseItem { item, target }),
            },
            _ => TickOutcome { next: state, effect: None },
        },
        RunState::MainMenu { .. } => match event {
            TickEvent::MainMenu(MainMenuResult::NoSelection { selected }) => TickOutcome {
                next: RunState::MainMenu { menu_selection: selected },
                effect: None,
            },
            TickEvent::MainMenu(MainMenuResult::Selected { selected }) => match selected {
                MainMenuSelection::NewGame => TickOutcome { next: RunState::PreRun, effect: None },
                MainMenuSelection::LoadGame => TickOutcome {
                    next: RunState::AwaitingInput,
                    effect: Some(TickEffect::LoadGame),
                },
                MainMenuSelection::Quit => TickOutcome { next: state, effect: Some(TickEffect::Quit) },
            },
            _ => TickOutcome { next: state, effect: None },
        },
        RunState::GameOver => match event {
            TickEvent::GameOver(GameOverResult::QuitToMenu) => TickOutcome {
                next: RunState::MainMenu { menu_selection: MainMenuSelection::NewGame },
                effect: Some(TickEffect::GameOverCleanup),
            },
            _ => TickOutcome { next: state, effect: None },
        },
        RunState::SaveGame => TickOutcome {
            next: RunState::MainMenu { menu_selection: MainMenuSelection::LoadGame },
            effect: Some(TickEffect::SaveGame),
        },
        RunState::NextLevel => {
            mapgen.next_state = Some(RunState::PreRun);
            TickOutcome { next: RunState::MapGeneration, effect: Some(TickEffect::GotoLevel { offset: 1 }) }
        },
        RunState::PreviousLevel => {
            mapgen.next_state = Some(RunState::PreRun);
            TickOutcome { next: RunState::MapGeneration, effect: Some(TickEffect::GotoLevel { offset: -1 }) }
        },
        RunState::MagicMapReveal { row } => match event {
            TickEvent::MapRevealed { map_height } => {
                if row == map_height - 1 {
                    TickOutcome { next: RunState::Ticking, effect: None }
                } else {
                    TickOutcome { next: RunState::MagicMapReveal { row: row + 1 }, effect: None }
                }
            },
            _ => TickOutcome { next: state, effect: None },
        },
        RunState::MapGeneration => match event {
            TickEvent::MapGenFrame { frame_due } => {
                if show_visualizer {
                    if frame_due {
                        mapgen.index = mapgen.index + 1;
                        if mapgen.index >= mapgen.history.len() {
                            match mapgen.next_state {
                                Some(next) => TickOutcome { next, effect: None },
                                None => TickOutcome { next: state, effect: None },
                            }
                        } else {
                            TickOutcome { next: state, effect: None }
                        }
                    } else {
                        TickOutcome { next: state, effect: None }
                    }
                } else {
                    match mapgen.next_state {
                        Some(next) => TickOutcome { next, effect: None },
                        None => TickOutcome { next: state, effect: None },
                    }
                }
            },
            _ => TickOutcome { next: state, effect: None },
        },
        RunState::ShowCheatMenu => match event {
            TickEvent::CheatMenu(CheatMenuResult::Cancel) => TickOutcome {
                next: RunState::AwaitingInput,
                effect: None,
            },
            TickEvent::CheatMenu(CheatMenuResult::TeleportToExit) => {
                mapgen.next_state = Some(RunState::PreRun);
                TickOutcome { next: RunState::MapGeneration, effect: Some(TickEffect::GotoLevel { offset: 1 }) }
            },
            _ => TickOutcome { next: state, effect: None },
        },
    }
}

/// Taking the stairs (either way) or the cheat teleport leads into map generation with
/// the game set to resume at `PreRun`; with the visualiser off, the next frame of map
/// generation then enters `PreRun`.
pub proof fn law_level_change_resumes_at_prerun(state: RunState, event: TickEvent, mg: MapgenState, mg2: MapgenState, frame_due: bool)
    requires
        state == RunState::NextLevel || state == RunState::PreviousLevel || (state == RunState::ShowCheatMenu
            && event == TickEvent::CheatMenu(CheatMenuResult::TeleportToExit)),
        event_fits(state, event, mg, false),
        mg2.next_state == spec_next_after_mapgen(state, event, mg),
    ensures
        spec_tick_outcome(state, event, mg, false).next == RunState::MapGeneration,
        mg2.next_state == Some(RunState::PreRun),
        event_fits(RunState::MapGeneration, TickEvent::MapGenFrame { frame_due }, mg2, false),
        spec_tick_outcome(RunState::MapGeneration, TickEvent::MapGenFrame { frame_due }, mg2, false).next
            == RunState::PreRun,
{
}

/// Cancelling any item, targeting or cheat menu returns to waiting for input, with no
/// change to the world.
pub proof fn law_cancel_returns_to_input(state: RunState, event: TickEvent, mg: MapgenState, show_visualizer: bool)
    requires
        event_fits(state, event, mg, show_visualizer),
        match state {
            RunState::ShowInventory | RunState::ShowDropItem | RunState::ShowRemoveItem => event->ItemMenu_result == ItemMenuResult::Cancel,
            RunState::ShowTargeting { .. } => event->Targeting_result == ItemMenuResult::Cancel,
            RunState::ShowCheatMenu => event == TickEvent::CheatMenu(CheatMenuResult::Cancel),
            _ => false,
        },
    ensures
        spec_tick_outcome(state, event, mg, show_visualizer) == (TickOutcome { next: RunState::AwaitingInput, effect: None }),
        spec_next_after_mapgen(state, event, mg) == mg.next_state,
        spec_index_after(state, event, mg, show_visualizer) == mg.index,
{
}

/// A menu that got no answer this frame stays open, with no change to the world.
pub proof fn law_no_response_keeps_state(state: RunState, event: TickEvent, mg: MapgenState, show_visualizer: bool)
    requires
        event_fits(state, event, mg, show_visualizer),
        match state {
            RunState::ShowInventory | RunState::ShowDropItem | RunState::ShowRemoveItem => event->ItemMenu_result == ItemMenuResult::NoResponse,
            RunState::ShowTargeting { .. } => event->Targeting_result == ItemMenuResult::NoResponse,
            RunState::ShowCheatMenu => event == TickEvent::CheatMenu(CheatMenuResult::NoResponse),
            RunState::GameOver => event == TickEvent::GameOver(GameOverResult::NoSelection),
            _ => false,
        },
    ensures
        spec_tick_outcome(state, event, mg, show_visualizer) == (TickOutcome { next: state, effect: None }),
        spec_next_after_mapgen(state, event, mg) == mg.next_state,
        spec_index_after(state, event, mg, show_visualizer) == mg.index,
{
}

/// Magic mapping walks the rows in order from the row it is at: each frame reveals one
/// row and moves to the next, and after the last row of the map play resumes.
pub proof fn law_magic_map_walks_rows(row: i32, map_height: i32, mg: MapgenState, show_visualizer: bool)
    requires
        0 <= row < map_height,
    ensures
        event_fits(RunState::MagicMapReveal { row }, TickEvent::MapRevealed { map_height }, mg, show_visualizer),
        spec_tick_work(RunState::MagicMapReveal { row }, mg.index as int, mg.history@.len() as int, show_visualizer)
            == (TickWork::RevealRow { row }),
        spec_tick_outcome(RunState::MagicMapReveal { row }, TickEvent::MapRevealed { map_height }, mg, show_visualizer).next
            == if row == map_height - 1 {
            RunState::Ticking
        } else {
            RunState::MagicMapReveal { row: (row + 1) as i32 }
        },
{
}

} // verus!
