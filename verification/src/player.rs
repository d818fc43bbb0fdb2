use vstd::prelude::*;
use crate::components::Position;
use crate::entity::EntityId;
use crate::gamelog::GameLog;
use crate::map::{GameMap, spec_xy_idx};
use crate::runstate::RunState;
use crate::tiles::TileType;

verus! {

/// How fed a creature is.
#[derive(Clone, Copy, Debug, PartialEq, Eq, Structural)]
pub enum HungerState {
    WellFed,
    Normal,
    Hungry,
    Starving,
}

/// A bounded quantity such as hit points: its current and maximum value.
#[derive(Clone, Copy, Debug, PartialEq, Eq, Structural)]
pub struct Pool {
    pub current: i32,
    pub max: i32,
}

/// An item in someone's backpack: the item, who carries it, and its range when it is
/// used on a target.
#[derive(Clone, Copy, Debug, PartialEq, Eq, Structural)]
pub struct CarriedItem {
    pub item: EntityId,
    pub owner: EntityId,
    pub ranged: Option<i32>,
}

/// The index of the tile the player stands on.
pub open spec fn player_idx(map: &GameMap, pos: Position) -> int {
    spec_xy_idx(map.width as int, pos.x as int, pos.y as int)
}

/// Whether the player can go down: true on a staircase down; otherwise tells the
/// player there is no way down.
pub fn try_next_level(map: &GameMap, player_pos: Position, log: &mut GameLog) -> (r: bool)
    requires
        map.wf(),
        0 <= player_idx(map, player_pos) < map.tiles@.len(),
    ensures
        r == (map.tiles@[player_idx(map, player_pos)] == TileType::DownStairs),
        r ==> final(log).entries@ == old(log).entries@,
        !r ==> final(log).entries@.len() == old(log).entries@.len() + 1,
        !r ==> final(log).entries@.take(old(log).entries@.len() as int) == old(log).entries@,
        !r ==> final(log).entries@.last()@ == "There is no way down from here."@,
{
    let player_idx = map.xy_idx(player_pos.x, player_pos.y);
    if map.tiles[player_idx] == TileType::DownStairs {
        true
    } else {
        log.entries.push("There is no way down from here.".to_string());
        assert(log.entries@.take(old(log).entries@.len() as int) =~= old(log).entries@);
        false
    }
}

/// Whether the player can go up: true on a staircase up; otherwise tells the player
/// there is no way up.
pub fn try_previous_level(map: &GameMap, player_pos: Position, log: &mut GameLog) -> (r: bool)
    requires
        map.wf(),
        0 <= player_idx(map, player_pos) < map.tiles@.len(),
    ensures
        r == (map.tiles@[player_idx(map, player_pos)] == TileType::UpStairs),
        r ==> final(log).entries@ == old(log).entries@,
        !r ==> final(log).entries@.len() == old(log).entries@.len() + 1,
        !r ==> final(log).entries@.take(old(log).entries@.len() as int) == old(log).entries@,
        !r ==> final(log).entries@.last()@ == "There is no way up from here."@,
{
    let player_idx = map.xy_idx(player_pos.x, player_pos.y);
    if map.tiles[player_idx] == TileType::UpStairs {
        true
    } else {
        log.entries.push("There is no way up from here.".to_string());
        assert(log.entries@.take(old(log).entries@.len() as int) =~= old(log).entries@);
        false
    }
}

/// The last item among the first `k` that lies where the player stands.
pub open spec fn last_item_at(items: Seq<(EntityId, Position)>, pos: Position, k: int) -> Option<EntityId>
    decreases k,
{
    if k <= 0 {
        None
    } else if items[k - 1].1 == pos {
        Some(items[k - 1].0)
    } else {
        last_item_at(items, pos, k - 1)
    }
}

/// The item found is the last one listed where the player stands; none is found only
/// when nothing listed lies there.
proof fn lemma_last_item_at(items: Seq<(EntityId, Position)>, pos: Position, k: int)
    requires
        0 <= k <= items.len(),
    ensures
        last_item_at(items, pos, k) matches Some(e) ==> exists|i: int|
            0 <= i < k && #[trigger] items[i] == (e, pos) && forall|j: int| i < j < k ==> (#[trigger] items[j]).1 != pos,
        last_item_at(items, pos, k) is None ==> forall|i: int| 0 <= i < k ==> (#[trigger] items[i]).1 != pos,
    decreases k,
{
    if k > 0 {
        lemma_last_item_at(items, pos, k - 1);
        if items[k - 1].1 == pos {
            assert(items[k - 1] == (items[k - 1].0, pos));
        }
    }
}

/// Picks up the last listed item lying where the player stands: the player then
/// wants to pick it up and the turn passes; with nothing there the player is told so
/// and input is awaited.
pub fn get_item(player_pos: Position, items: &Vec<(EntityId, Position)>, log: &mut GameLog) -> (out: (RunState, Option<EntityId>))
    ensures
        out.1 == last_item_at(items@, player_pos, items@.len() as int),
        out.1 matches Some(e) ==> exists|i: int|
            0 <= i < items@.len() && #[trigger] items@[i] == (e, player_pos) && forall|j: int|
                i < j < items@.len() ==> (#[trigger] items@[j]).1 != player_pos,
        out.1 is None ==> forall|i: int| 0 <= i < items@.len() ==> (#[trigger] items@[i]).1 != player_pos,
        out.1 is Some ==> out.0 == RunState::Ticking && final(log).entries@ == old(log).entries@,
        out.1 is None ==> {
            &&& out.0 == RunState::AwaitingInput
            &&& final(log).entries@.len() == old(log).entries@.len() + 1
            &&& final(log).entries@.take(old(log).entries@.len() as int) == old(log).entries@
            &&& final(log).entries@.last()@ == "There is nothing here to pick up."@
        },
{
    let mut target_item: Option<EntityId> = None;
    let mut i: usize = 0;
    while i < items.len()
        invariant
            i <= items@.len(),
            target_item == last_item_at(items@, player_pos, i as int),
        decreases items@.len() - i,
    {
        let (item_entity, position) = items[i];
        if position.x == player_pos.x && position.y == player_pos.y {
            target_item = Some(item_entity);
        }
        i = i + 1;
    }
    proof {
        lemma_last_item_at(items@, player_pos, items@.len() as int);
    }
    match target_item {
        None => {
            log.entries.push("There is nothing here to pick up.".to_string());
            assert(log.entries@.take(old(log).entries@.len() as int) =~= old(log).entries@);
            (RunState::AwaitingInput, None)
        },
        Some(item) => (RunState::Ticking, Some(item)),
    }
}

/// The consumables carried by `player`, in listed order.
pub open spec fn carried_by(carried: Seq<CarriedItem>, player: EntityId) -> Seq<CarriedItem> {
    carried.filter(|c: CarriedItem| c.owner == player)
}

/// Uses the player's `key`-th carried consumable (counting from 0): a ranged one
/// opens targeting, any other is used at once; without such a consumable the turn
/// just passes. The second result is the item to use at once.
pub fn use_consumable_hotkey(carried: &Vec<CarriedItem>, player: EntityId, key: i32) -> (out: (RunState, Option<EntityId>))
    ensures
        ({
            let mine = carried_by(carried@, player);
            if 0 <= key < mine.len() {
                match mine[key as int].ranged {
                    Some(range) => out == (RunState::ShowTargeting { range, item: mine[key as int].item }, None::<EntityId>),
                    None => out == (RunState::Ticking, Some(mine[key as int].item)),
                }
            } else {
                out == (RunState::Ticking, None::<EntityId>)
            }
        }),
{
    let mut carried_consumables: Vec<CarriedItem> = Vec::new();
    let mut i: usize = 0;
    while i < carried.len()
        invariant
            i <= carried@.len(),
            carried_consumables@ == carried_by(carried@.take(i as int), player),
        decreases carried@.len() - i,
    {
        proof {
            assert(carried@.take(i + 1).drop_last() =~= carried@.take(i as int));
            reveal_with_fuel(Seq::filter, 1);
        }
        if carried[i].owner == player {
            carried_consumables.push(carried[i]);
        }
        i = i + 1;
    }
    proof {
        assert(carried@.take(carried@.len() as int) =~= carried@);
    }
    if key >= 0 && (key as usize) < carried_consumables.len() {
        let chosen = carried_consumables[key as usize];
        match chosen.ranged {
            Some(range) => (RunState::ShowTargeting { range, item: chosen.item }, None),
            None => (RunState::Ticking, Some(chosen.item)),
        }
    } else {
        (RunState::Ticking, None)
    }
}

/// Some entity on tile `idx` is a monster.
pub open spec fn tile_has_monster(map: &GameMap, idx: int, monsters: Seq<EntityId>) -> bool {
    exists|j: int|
        0 <= j < map.tile_content@[idx]@.len() && monsters.contains(#[trigger] map.tile_content@[idx]@[j])
}

/// Some monster stands on one of the first `k` tiles the player can see.
pub open spec fn monster_in_view(map: &GameMap, visible: Seq<Position>, monsters: Seq<EntityId>, k: int) -> bool {
    exists|i: int| 0 <= i < k && #[trigger] tile_has_monster(map, player_idx(map, visible[i]), monsters)
}

/// Waiting heals one hit point, up to the maximum, unless a monster is in view or the
/// player is hungry or starving.
pub open spec fn spec_can_heal(map: &GameMap, visible: Seq<Position>, monsters: Seq<EntityId>, hunger: Option<HungerState>) -> bool {
    &&& !monster_in_view(map, visible, monsters, visible.len() as int)
    &&& hunger != Some(HungerState::Hungry)
    &&& hunger != Some(HungerState::Starving)
}

fn is_monster(monsters: &Vec<EntityId>, e: EntityId) -> (r: bool)
    ensures
        r == monsters@.contains(e),
{
    let mut i: usize = 0;
    while i < monsters.len()
        invariant
            i <= monsters@.len(),
            forall|j: int| 0 <= j < i ==> monsters@[j] != e,
        decreases monsters@.len() - i,
    {
        if monsters[i] == e {
            assert(monsters@[i as int] == e);
            return true;
        }
        i = i + 1;
    }
    false
}

fn has_monster(map: &GameMap, idx: usize, monsters: &Vec<EntityId>) -> (r: bool)
    requires
        idx < map.tile_content@.len(),
    ensures
        r == tile_has_monster(map, idx as int, monsters@),
{
    let content = &map.tile_content[idx];
    let mut j: usize = 0;
    while j < content.len()
        invariant
            j <= content@.len(),
            content@ == map.tile_content@[idx as int]@,
            forall|k: int| 0 <= k < j ==> !monsters@.contains(content@[k]),
        decreases content@.len() - j,
    {
        if is_monster(monsters, content[j]) {
            return true;
        }
        j = j + 1;
    }
    false
}

/// Skips the player's turn, healing one hit point (up to the maximum) when no monster
/// is in view and the player is neither hungry nor starving.
pub fn skip_turn(map: &GameMap, visible_tiles: &Vec<Position>, monsters: &Vec<EntityId>, hunger: Option<HungerState>, hit_points: Pool) -> (out: (RunState, Pool))
    requires
        map.wf(),
        forall|i: int| 0 <= i < visible_tiles@.len() ==> 0 <= #[trigger] player_idx(map, visible_tiles@[i]) < map.tiles@.len(),
        spec_can_heal(map, visible_tiles@, monsters@, hunger) ==> hit_points.current < i32::MAX,
    ensures
        out.0 == RunState::Ticking,
        out.1 == if spec_can_heal(map, visible_tiles@, monsters@, hunger) {
            Pool {
                current: if hit_points.current + 1 <= hit_points.max { (hit_points.current + 1) as i32 } else { hit_points.max },
                max: hit_points.max,
            }
        } else {
            hit_points
        },
        hunger == Some(HungerState::Hungry) || hunger == Some(HungerState::Starving) ==> out.1 == hit_points,
        (exists|i: int, j: int|
            0 <= i < visible_tiles@.len() && 0 <= j < map.tile_content@[player_idx(map, visible_tiles@[i])]@.len()
                && monsters@.contains(#[trigger] map.tile_content@[player_idx(map, visible_tiles@[i])]@[j])) ==> out.1 == hit_points,
        hunger != Some(HungerState::Hungry) && hunger != Some(HungerState::Starving) && (forall|i: int, j: int|
            0 <= i < visible_tiles@.len() && 0 <= j < map.tile_content@[player_idx(map, visible_tiles@[i])]@.len()
                ==> !monsters@.contains(#[trigger] map.tile_content@[player_idx(map, visible_tiles@[i])]@[j]))
            ==> out.1.max == hit_points.max && out.1.current == (if hit_points.current < hit_points.max { hit_points.current + 1 } else { hit_points.max as int }),
        hit_points.current <= hit_points.max ==> out.1.current <= out.1.max,
        hit_points.current <= hit_points.max ==> out.1.current >= hit_points.current,
{
    let mut can_heal = true;
    let mut i: usize = 0;
    while i < visible_tiles.len()
        invariant
            map.wf(),
            forall|k: int| 0 <= k < visible_tiles@.len() ==> 0 <= #[trigger] player_idx(map, visible_tiles@[k]) < map.tiles@.len(),
            i <= visible_tiles@.len(),
            can_heal == !monster_in_view(map, visible_tiles@, monsters@, i as int),
        decreases visible_tiles@.len() - i,
    {
        let tile = visible_tiles[i];
        assert(0 <= player_idx(map, visible_tiles@[i as int]) < map.tiles@.len());
        let idx = map.xy_idx(tile.x, tile.y);
        if has_monster(map, idx, monsters) {
            can_heal = false;
        }
        proof {
            if tile_has_monster(map, player_idx(map, visible_tiles@[i as int]), monsters@) {
                assert(monster_in_view(map, visible_tiles@, monsters@, i + 1));
            }
            if monster_in_view(map, visible_tiles@, monsters@, i + 1) && !monster_in_view(map, visible_tiles@, monsters@, i as int) {
                let k = choose|k: int| 0 <= k < i + 1 && #[trigger] tile_has_monster(map, player_idx(map, visible_tiles@[k]), monsters@);
                assert(k == i);
            }
        }
        i = i + 1;
    }
    match hunger {
        Some(HungerState::Hungry) => can_heal = false,
        Some(HungerState::Starving) => can_heal = false,
        _ => {},
    }
    proof {
        if exists|i: int, j: int|
            0 <= i < visible_tiles@.len() && 0 <= j < map.tile_content@[player_idx(map, visible_tiles@[i])]@.len()
                && monsters@.contains(#[trigger] map.tile_content@[player_idx(map, visible_tiles@[i])]@[j]) {
            let (i, j) = choose|i: int, j: int|
                0 <= i < visible_tiles@.len() && 0 <= j < map.tile_content@[player_idx(map, visible_tiles@[i])]@.len()
                    && monsters@.contains(#[trigger] map.tile_content@[player_idx(map, visible_tiles@[i])]@[j]);
            assert(tile_has_monster(map, player_idx(map, visible_tiles@[i]), monsters@));
            assert(monster_in_view(map, visible_tiles@, monsters@, visible_tiles@.len() as int));
        }
    }
    if can_heal {
        let current = if hit_points.current + 1 <= hit_points.max { hit_points.current + 1 } else { hit_points.max };
        (RunState::Ticking, Pool { current, max: hit_points.max })
    } else {
        (RunState::Ticking, hit_points)
    }
}

/// The keys the game responds to; every other key is `Other`.
#[derive(Clone, Copy, Debug, PartialEq, Eq, Structural)]
pub enum Key {
    Key1,
    Key2,
    Key3,
    Key4,
    Key5,
    Key6,
    Key7,
    Key8,
    Key9,
    Left,
    Right,
    Up,
    Down,
    Numpad1,
    Numpad2,
    Numpad3,
    Numpad4,
    Numpad5,
    Numpad6,
    Numpad7,
    Numpad8,
    Numpad9,
    H,
    J,
    K,
    L,
    Y,
    U,
    B,
    N,
    Space,
    Period,
    Comma,
    G,
    I,
    D,
    R,
    Escape,
    Backslash,
    Other,
}

/// What a key press asks the player's character to do.
#[derive(Clone, Copy, Debug, PartialEq, Eq, Structural)]
pub enum PlayerCommand {
    /// Use the carried consumable in this hotkey slot (counting from 0).
    UseHotkey { slot: i32 },
    /// Step by this offset.
    Move { dx: i32, dy: i32 },
    SkipTurn,
    Descend,
    Ascend,
    PickUp,
    /// Go straight to this state.
    Enter(RunState),
}

/// The digit of a number-row key.
pub open spec fn spec_hotkey_digit(key: Key) -> Option<i32> {
    match key {
        Key::Key1 => Some(1i32),
        Key::Key2 => Some(2i32),
        Key::Key3 => Some(3i32),
        Key::Key4 => Some(4i32),
        Key::Key5 => Some(5i32),
        Key::Key6 => Some(6i32),
        Key::Key7 => Some(7i32),
        Key::Key8 => Some(8i32),
        Key::Key9 => Some(9i32),
        _ => None,
    }
}

/// The command for a key pressed without a hotkey meaning: arrows, keypad and vi keys
/// move (diagonals on the keypad and y/u/b/n), keypad 5 and space wait a turn, `.`
/// and `,` take stairs, g picks up, i/d/r open the inventory, drop and remove menus,
/// escape saves, backslash opens the cheat menu; anything else, or no key, waits for
/// input.
pub open spec fn spec_key_command(key: Option<Key>) -> PlayerCommand {
    match key {
        None => PlayerCommand::Enter(RunState::AwaitingInput),
        Some(k) => match k {
            Key::Left | Key::Numpad4 | Key::H => PlayerCommand::Move { dx: -1i32, dy: 0i32 },
            Key::Right | Key::Numpad6 | Key::L => PlayerCommand::Move { dx: 1i32, dy: 0i32 },
            Key::Up | Key::Numpad8 | Key::K => PlayerCommand::Move { dx: 0i32, dy: -1i32 },
            Key::Down | Key::Numpad2 | Key::J => PlayerCommand::Move { dx: 0i32, dy: 1i32 },
            Key::Numpad9 | Key::U => PlayerCommand::Move { dx: 1i32, dy: -1i32 },
            Key::Numpad7 | Key::Y => PlayerCommand::Move { dx: -1i32, dy: -1i32 },
            Key::Numpad3 | Key::N => PlayerCommand::Move { dx: 1i32, dy: 1i32 },
            Key::Numpad1 | Key::B => PlayerCommand::Move { dx: -1i32, dy: 1i32 },
            Key::Numpad5 | Key::Space => PlayerCommand::SkipTurn,
            Key::Period => PlayerCommand::Descend,
            Key::Comma => PlayerCommand::Ascend,
            Key::G => PlayerCommand::PickUp,
            Key::I => PlayerCommand::Enter(RunState::ShowInventory),
            Key::D => PlayerCommand::Enter(RunState::ShowDropItem),
            Key::R => PlayerCommand::Enter(RunState::ShowRemoveItem),
            Key::Escape => PlayerCommand::Enter(RunState::SaveGame),
            Key::Backslash => PlayerCommand::Enter(RunState::ShowCheatMenu),
            _ => PlayerCommand::Enter(RunState::AwaitingInput),
        },
    }
}

/// The command for the key pressed this frame: with shift held, the number keys 1 to 9
/// use hotkey slots 0 to 8; otherwise see `spec_key_command`.
pub fn player_input(shift: bool, key: Option<Key>) -> (cmd: PlayerCommand)
    ensures
        cmd == (if shift && key is Some && spec_hotkey_digit(key->Some_0) is Some {
            PlayerCommand::UseHotkey { slot: (spec_hotkey_digit(key->Some_0)->Some_0 - 1) as i32 }
        } else {
            spec_key_command(key)
        }),
        key == Some(Key::Left) || key == Some(Key::Numpad4) || key == Some(Key::H) ==> cmd == (PlayerCommand::Move { dx: -1i32, dy: 0i32 }),
        key == Some(Key::Right) || key == Some(Key::Numpad6) || key == Some(Key::L) ==> cmd == (PlayerCommand::Move { dx: 1i32, dy: 0i32 }),
        key == Some(Key::Up) || key == Some(Key::Numpad8) || key == Some(Key::K) ==> cmd == (PlayerCommand::Move { dx: 0i32, dy: -1i32 }),
        key == Some(Key::Down) || key == Some(Key::Numpad2) || key == Some(Key::J) ==> cmd == (PlayerCommand::Move { dx: 0i32, dy: 1i32 }),
        key == Some(Key::Numpad7) || key == Some(Key::Y) ==> cmd == (PlayerCommand::Move { dx: -1i32, dy: -1i32 }),
        key == Some(Key::Numpad9) || key == Some(Key::U) ==> cmd == (PlayerCommand::Move { dx: 1i32, dy: -1i32 }),
        key == Some(Key::Numpad1) || key == Some(Key::B) ==> cmd == (PlayerCommand::Move { dx: -1i32, dy: 1i32 }),
        key == Some(Key::Numpad3) || key == Some(Key::N) ==> cmd == (PlayerCommand::Move { dx: 1i32, dy: 1i32 }),
        key == Some(Key::Numpad5) || key == Some(Key::Space) ==> cmd == PlayerCommand::SkipTurn,
        key == Some(Key::Period) ==> cmd == PlayerCommand::Descend,
        key == Some(Key::Comma) ==> cmd == PlayerCommand::Ascend,
        key == Some(Key::G) ==> cmd == PlayerCommand::PickUp,
        key == Some(Key::I) ==> cmd == PlayerCommand::Enter(RunState::ShowInventory),
        key == Some(Key::D) ==> cmd == PlayerCommand::Enter(RunState::ShowDropItem),
        key == Some(Key::R) ==> cmd == PlayerCommand::Enter(RunState::ShowRemoveItem),
        key == Some(Key::Escape) ==> cmd == PlayerCommand::Enter(RunState::SaveGame),
        key == Some(Key::Backslash) ==> cmd == PlayerCommand::Enter(RunState::ShowCheatMenu),
        key == Some(Key::Other) || key is None ==> cmd == PlayerCommand::Enter(RunState::AwaitingInput),
        shift && key == Some(Key::Key1) ==> cmd == (PlayerCommand::UseHotkey { slot: 0i32 }),
        shift && key == Some(Key::Key2) ==> cmd == (PlayerCommand::UseHotkey { slot: 1i32 }),
        shift && key == Some(Key::Key3) ==> cmd == (PlayerCommand::UseHotkey { slot: 2i32 }),
        shift && key == Some(Key::Key4) ==> cmd == (PlayerCommand::UseHotkey { slot: 3i32 }),
        shift && key == Some(Key::Key5) ==> cmd == (PlayerCommand::UseHotkey { slot: 4i32 }),
        shift && key == Some(Key::Key6) ==> cmd == (PlayerCommand::UseHotkey { slot: 5i32 }),
        shift && key == Some(Key::Key7) ==> cmd == (PlayerCommand::UseHotkey { slot: 6i32 }),
        shift && key == Some(Key::Key8) ==> cmd == (PlayerCommand::UseHotkey { slot: 7i32 }),
        shift && key == Some(Key::Key9) ==> cmd == (PlayerCommand::UseHotkey { slot: 8i32 }),
        !shift && (key == Some(Key::Key1) || key == Some(Key::Key2) || key == Some(Key::Key3) || key == Some(Key::Key4)
            || key == Some(Key::Key5) || key == Some(Key::Key6) || key == Some(Key::Key7) || key == Some(Key::Key8)
            || key == Some(Key::Key9)) ==> cmd == PlayerCommand::Enter(RunState::AwaitingInput),
{
    if shift && key.is_some() {
        let hotkey: Option<i32> = match key {
            Some(Key::Key1) => Some(1),
            Some(Key::Key2) => Some(2),
            Some(Key::Key3) => Some(3),
            Some(Key::Key4) => Some(4),
            Some(Key::Key5) => Some(5),
            Some(Key::Key6) => Some(6),
            Some(Key::Key7) => Some(7),
            Some(Key::Key8) => Some(8),
            Some(Key::Key9) => Some(9),
            _ => None,
        };
        if let Some(k) = hotkey {
            return PlayerCommand::UseHotkey { slot: k - 1 };
        }
    }
    match key {
        None => PlayerCommand::Enter(RunState::AwaitingInput),
        Some(k) => match k {
            Key::Left | Key::Numpad4 | Key::H => PlayerCommand::Move { dx: -1, dy: 0 },
            Key::Right | Key::Numpad6 | Key::L => PlayerCommand::Move { dx: 1, dy: 0 },
            Key::Up | Key::Numpad8 | Key::K => PlayerCommand::Move { dx: 0, dy: -1 },
            Key::Down | Key::Numpad2 | Key::J => PlayerCommand::Move { dx: 0, dy: 1 },
            Key::Numpad9 | Key::U => PlayerCommand::Move { dx: 1, dy: -1 },
            Key::Numpad7 | Key::Y => PlayerCommand::Move { dx: -1, dy: -1 },
            Key::Numpad3 | Key::N => PlayerCommand::Move { dx: 1, dy: 1 },
            Key::Numpad1 | Key::B => PlayerCommand::Move { dx: -1, dy: 1 },
            Key::Numpad5 | Key::Space => PlayerCommand::SkipTurn,
            Key::Period => PlayerCommand::Descend,
            Key::Comma => PlayerCommand::Ascend,
            Key::G => PlayerCommand::PickUp,
            Key::I => PlayerCommand::Enter(RunState::ShowInventory),
            Key::D => PlayerCommand::Enter(RunState::ShowDropItem),
            Key::R => PlayerCommand::Enter(RunState::ShowRemoveItem),
            Key::Escape => PlayerCommand::Enter(RunState::SaveGame),
            Key::Backslash => PlayerCommand::Enter(RunState::ShowCheatMenu),
            _ => PlayerCommand::Enter(RunState::AwaitingInput),
        },
    }
}

/// The state after the player asks to take the stairs (down when `down`): the level
/// change when standing on matching stairs, otherwise the turn passes with a message.
pub fn take_stairs(map: &GameMap, player_pos: Position, log: &mut GameLog, down: bool) -> (s: RunState)
    requires
        map.wf(),
        0 <= player_idx(map, player_pos) < map.tiles@.len(),
    ensures
        s == if down {
            if map.tiles@[player_idx(map, player_pos)] == TileType::DownStairs {
                RunState::NextLevel
            } else {
                RunState::Ticking
            }
        } else {
            if map.tiles@[player_idx(map, player_pos)] == TileType::UpStairs {
                RunState::PreviousLevel
            } else {
                RunState::Ticking
            }
        },
        final(log).entries@.len() == old(log).entries@.len() + (if s == RunState::Ticking { 1int } else { 0int }),
        final(log).entries@.take(old(log).entries@.len() as int) == old(log).entries@,
        s == RunState::Ticking && down ==> final(log).entries@.last()@ == "There is no way down from here."@,
        s == RunState::Ticking && !down ==> final(log).entries@.last()@ == "There is no way up from here."@,
{
    if down {
        if try_next_level(map, player_pos, log) {
            assert(log.entries@.take(old(log).entries@.len() as int) =~= old(log).entries@);
            return RunState::NextLevel;
        }
    } else {
        if try_previous_level(map, player_pos, log) {
            assert(log.entries@.take(old(log).entries@.len() as int) =~= old(log).entries@);
            return RunState::PreviousLevel;
        }
    }
    RunState::Ticking
}

} // verus!
