use vstd::prelude::*;
use crate::entity::EntityId;
use crate::gamelog::GameLog;
use crate::map::{GameMap, stairs_present, walkable, spec_has_down_stairs, spec_walkable};
use crate::tiles::TileType;

verus! {

/// What a level change needs to know about an entity: whether it is the player, and
/// who carries it in a backpack or has it equipped.
#[derive(Clone, Copy, Debug, PartialEq, Eq, Structural)]
pub struct EntityRecord {
    pub entity: EntityId,
    pub is_player: bool,
    pub backpack_owner: Option<EntityId>,
    pub equipped_owner: Option<EntityId>,
}

/// An entity is left behind on a level change unless it is the player or something
/// the player carries or wears.
pub open spec fn removed_on_level_change(r: EntityRecord, player: EntityId) -> bool {
    &&& !r.is_player
    &&& r.backpack_owner != Some(player)
    &&& r.equipped_owner != Some(player)
}

/// The entities to delete when the player changes level, in listed order.
pub open spec fn spec_entities_to_remove(entities: Seq<EntityRecord>, player: EntityId) -> Seq<EntityId> {
    entities.filter(|r: EntityRecord| removed_on_level_change(r, player)).map_values(|r: EntityRecord| r.entity)
}

/// The entities to delete when the player changes level: all but the player and the
/// items in the player's backpack or equipped by the player.
pub fn entities_to_remove_on_level_change(entities: &Vec<EntityRecord>, player: EntityId) -> (to_delete: Vec<EntityId>)
    ensures
        to_delete@ == spec_entities_to_remove(entities@, player),
{
    let mut to_delete: Vec<EntityId> = Vec::new();
    let mut i: usize = 0;
    while i < entities.len()
        invariant
            i <= entities@.len(),
            to_delete@ == spec_entities_to_remove(entities@.take(i as int), player),
        decreases entities@.len() - i,
    {
        let record = entities[i];
        let mut should_delete = true;
        if record.is_player {
            should_delete = false;
        }
        if let Some(owner) = record.backpack_owner {
            if owner == player {
                should_delete = false;
            }
        }
        if let Some(owner) = record.equipped_owner {
            if owner == player {
                should_delete = false;
            }
        }
        proof {
            assert(entities@.take(i + 1).drop_last() =~= entities@.take(i as int));
            reveal_with_fuel(Seq::filter, 1);
        }
        if should_delete {
            to_delete.push(record.entity);
        }
        proof {
            let p = |r: EntityRecord| removed_on_level_change(r, player);
            let f = |r: EntityRecord| r.entity;
            let prev = entities@.take(i as int).filter(p);
            let next = entities@.take(i + 1).filter(p);
            if should_delete {
                assert(next == prev.push(record));
                assert(next.map_values(f) =~= prev.map_values(f).push(record.entity));
            } else {
                assert(next == prev);
            }
        }
        i = i + 1;
    }
    proof {
        assert(entities@.take(entities@.len() as int) =~= entities@);
    }
    to_delete
}

/// A generated level is thrown away when it has no staircase down or less than
/// `min_percent` percent of it is walkable ground.
pub open spec fn spec_map_rejected(map: &GameMap, min_percent: i8) -> bool {
    !spec_has_down_stairs(map) || !spec_walkable(map, min_percent)
}

/// A level that is still solid wall, as it is before any builder runs, is always
/// thrown away, whatever share of walkable ground is asked for.
pub proof fn law_blank_map_rejected(map: &GameMap, depth: i32, width: i32, height: i32, min_percent: i8)
    requires
        map.is_blank(depth, width, height),
    ensures
        spec_map_rejected(map, min_percent),
{
    if spec_has_down_stairs(map) {
        let i = choose|i: int| 0 <= i < map.tile_count() && map.tiles@[i] == TileType::DownStairs;
        assert(map.tiles@[i] == TileType::Wall);
    }
}

/// Whether a generated level must be thrown away and built again.
pub fn map_rejected(map: &GameMap, min_percent: i8) -> (r: bool)
    requires
        map.wf(),
    ensures
        r == spec_map_rejected(map, min_percent),
{
    let has_stairs = stairs_present(map);
    let is_walkable = walkable(map, min_percent);
    !has_stairs || !is_walkable
}

/// The share of walkable ground, in percent, below which a freshly generated level is
/// built again.
pub const GENERATION_MIN_WALKABLE: i8 = 11;

/// The share of walkable ground, in percent, below which `reject_map` throws a level
/// away.
pub const REJECT_MIN_WALKABLE: i8 = 15;

/// The verdict on a freshly generated level.
pub enum LevelVerdict {
    /// The level is played.
    Keep,
    /// The level is thrown away: these entities are deleted and the level is built again.
    Rebuild(Vec<EntityId>),
}

/// Judges a freshly generated level: it is kept when it has a staircase down and at
/// least `GENERATION_MIN_WALKABLE` percent walkable ground; otherwise it is built again
/// after deleting everything but the player and the player's gear.
pub fn judge_generated_level(map: &GameMap, entities: &Vec<EntityRecord>, player: EntityId) -> (v: LevelVerdict)
    requires
        map.wf(),
    ensures
        match v {
            LevelVerdict::Keep => !spec_map_rejected(map, GENERATION_MIN_WALKABLE),
            LevelVerdict::Rebuild(d) => spec_map_rejected(map, GENERATION_MIN_WALKABLE)
                && d@ == spec_entities_to_remove(entities@, player),
        },
{
    if map_rejected(map, GENERATION_MIN_WALKABLE) {
        LevelVerdict::Rebuild(entities_to_remove_on_level_change(entities, player))
    } else {
        LevelVerdict::Keep
    }
}

/// Clears the previous level's entities and judges the level: the first result says
/// whether the level is thrown away (no staircase down, or less than
/// `REJECT_MIN_WALKABLE` percent walkable ground), the second lists the entities to
/// delete, which are deleted either way.
pub fn reject_map(map: &GameMap, entities: &Vec<EntityRecord>, player: EntityId) -> (out: (bool, Vec<EntityId>))
    requires
        map.wf(),
    ensures
        out.0 == spec_map_rejected(map, REJECT_MIN_WALKABLE),
        out.1@ == spec_entities_to_remove(entities@, player),
{
    let to_delete = entities_to_remove_on_level_change(entities, player);
    if !stairs_present(map) {
        return (true, to_delete);
    }
    if !walkable(map, REJECT_MIN_WALKABLE) {
        return (true, to_delete);
    }
    (false, to_delete)
}

/// Changing level never deletes the player or what the player carries or wears: when
/// each entity is listed once, the entity of a record that is the player, or is owned
/// by the player, is not among the entities to delete.
pub proof fn law_player_and_gear_kept(entities: Seq<EntityRecord>, player: EntityId, i: int)
    requires
        0 <= i < entities.len(),
        forall|a: int, b: int| 0 <= a < b < entities.len() ==> entities[a].entity != entities[b].entity,
        !removed_on_level_change(entities[i], player),
    ensures
        !spec_entities_to_remove(entities, player).contains(entities[i].entity),
{
    let p = |r: EntityRecord| removed_on_level_change(r, player);
    let f = |r: EntityRecord| r.entity;
    let kept = entities.filter(p);
    if spec_entities_to_remove(entities, player).contains(entities[i].entity) {
        let j = choose|j: int| 0 <= j < kept.map_values(f).len() && kept.map_values(f)[j] == entities[i].entity;
        assert(kept.contains(kept[j]));
        entities.lemma_filter_contains_rev(p, kept[j]);
        entities.lemma_filter_pred(p, j);
        assert(entities.contains(kept[j]));
        let a = choose|a: int| 0 <= a < entities.len() && entities[a] == kept[j];
        assert(p(kept[j]));
        assert(a != i);
        if a < i {
            assert(entities[a].entity != entities[i].entity);
        } else {
            assert(entities[i].entity != entities[a].entity);
        }
    }
}

/// Moves the player `offset` levels down from `current_depth` (up when negative): the
/// depth of the level to build, with the player told of the change.
pub fn goto_level(current_depth: i32, offset: i32, log: &mut GameLog) -> (new_depth: i32)
    requires
        i32::MIN <= current_depth + offset <= i32::MAX,
    ensures
        new_depth == current_depth + offset,
        final(log).entries@.len() == old(log).entries@.len() + 1,
        final(log).entries@.take(old(log).entries@.len() as int) == old(log).entries@,
        final(log).entries@.last()@ == "You change level."@,
{
    let new_depth = current_depth + offset;
    log.entries.push("You change level.".to_string());
    assert(log.entries@.take(old(log).entries@.len() as int) =~= old(log).entries@);
    new_depth
}

} // verus!
