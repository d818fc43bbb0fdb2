use vstd::prelude::*;
use crate::components::Position;
use crate::entity::EntityId;
use crate::glyph::{cp437, to_cp437};
use crate::map::{GameMap, spec_xy_idx, lemma_idx_in_grid};
use crate::runstate::RunState;
use crate::tiles::{TileType, spec_tile_walkable};

verus! {

/// What the player's step cares about in an entity: whether it is a bystander or a
/// vendor (they swap places with the player), whether it can be attacked, whether it
/// is a door, and whether it has a position.
#[derive(Clone, Copy, Debug, PartialEq, Eq, Structural)]
pub struct EntityTraits {
    pub entity: EntityId,
    pub bystander: bool,
    pub vendor: bool,
    pub attackable: bool,
    pub door: bool,
    pub has_position: bool,
}

/// The result of the player's attempt to step: the next state, where the player ends
/// up, whether the player is marked as moved and its view as needing a refresh, the
/// last value written to the player-position resource, the entity to attack, the
/// doors opened (in order) with the glyph an open door shows, and the entities that
/// take the player's former places (in order).
pub struct MoveOutcome {
    pub state: RunState,
    pub player_pos: Position,
    pub moved: bool,
    pub viewshed_dirty: bool,
    pub player_point: Option<Position>,
    pub melee_target: Option<EntityId>,
    pub opened_doors: Vec<EntityId>,
    pub door_glyph: u16,
    pub swaps: Vec<(EntityId, Position)>,
}

/// The traits listed first for `e`; an unlisted entity has none.
pub open spec fn traits_of(traits: Seq<EntityTraits>, e: EntityId) -> EntityTraits
    decreases traits.len(),
{
    if traits.len() == 0 {
        EntityTraits { entity: e, bystander: false, vendor: false, attackable: false, door: false, has_position: false }
    } else if traits[0].entity == e {
        traits[0]
    } else {
        traits_of(traits.drop_first(), e)
    }
}

/// `v` clamped into `0..=hi`.
pub open spec fn clamp(v: int, hi: int) -> int {
    if hi < (if v < 0 { 0 } else { v }) { hi } else if v < 0 { 0 } else { v }
}

/// One step by `(dx, dy)` from `pos`, kept on the map.
pub open spec fn step_clamped(pos: Position, dx: i32, dy: i32, map: &GameMap) -> Position {
    Position {
        x: clamp(pos.x + dx, map.width - 1) as i32,
        y: clamp(pos.y + dy, map.height - 1) as i32,
    }
}

/// The progress of a step through the entities standing on its destination.
pub struct MoveTrace {
    pub pos: Position,
    pub result: RunState,
    pub moved: bool,
    pub dirty: bool,
    pub point: Option<Position>,
    pub doors: Seq<EntityId>,
    pub swaps: Seq<(EntityId, Position)>,
    pub returned: Option<RunState>,
    pub melee: Option<EntityId>,
}

/// The trace before any entity on the destination is considered.
pub open spec fn initial_trace(pos: Position) -> MoveTrace {
    MoveTrace {
        pos,
        result: RunState::AwaitingInput,
        moved: false,
        dirty: false,
        point: None,
        doors: Seq::empty(),
        swaps: Seq::empty(),
        returned: None,
        melee: None,
    }
}

/// Considering entity `t` on the destination: the player itself ends the attempt;
/// a bystander or vendor swaps places (the player steps again from the new place);
/// otherwise an attackable entity is attacked, ending the attempt; a door is opened.
pub open spec fn target_step(tr: MoveTrace, t: EntityId, player: EntityId, traits: Seq<EntityTraits>, dx: i32, dy: i32, map: &GameMap) -> MoveTrace {
    let tt = traits_of(traits, t);
    if tr.returned is Some {
        tr
    } else if t == player {
        MoveTrace { returned: Some(RunState::AwaitingInput), ..tr }
    } else if !(tt.bystander || tt.vendor) && tt.attackable {
        MoveTrace { returned: Some(RunState::Ticking), melee: Some(t), ..tr }
    } else {
        let tr1 = if tt.bystander || tt.vendor {
            let np = step_clamped(tr.pos, dx, dy, map);
            MoveTrace {
                pos: np,
                result: RunState::Ticking,
                moved: true,
                dirty: true,
                point: Some(np),
                swaps: tr.swaps.push((t, tr.pos)),
                ..tr
            }
        } else {
            tr
        };
        if tt.door {
            MoveTrace { doors: tr1.doors.push(t), dirty: true, result: RunState::Ticking, ..tr1 }
        } else {
            tr1
        }
    }
}

/// The trace after considering the first `k` entities on the destination.
pub open spec fn targets_trace(targets: Seq<EntityId>, k: int, start: MoveTrace, player: EntityId, traits: Seq<EntityTraits>, dx: i32, dy: i32, map: &GameMap) -> MoveTrace
    decreases k,
{
    if k <= 0 {
        start
    } else {
        target_step(targets_trace(targets, k - 1, start, player, traits, dx, dy, map), targets[k - 1], player, traits, dx, dy, map)
    }
}

/// Some entity that took the player's place has a position to update.
pub open spec fn some_swap_placed(swaps: Seq<(EntityId, Position)>, traits: Seq<EntityTraits>) -> bool {
    exists|i: int| 0 <= i < swaps.len() && traits_of(traits, #[trigger] swaps[i].0).has_position
}

/// The trace once the destination's entities are dealt with: if the attempt did not
/// end, the player steps onto a walkable destination (stairs lead to a level change),
/// then the turn passes if some swapped entity was moved.
pub open spec fn final_trace(tr: MoveTrace, dest_tile: TileType, dx: i32, dy: i32, map: &GameMap, traits: Seq<EntityTraits>) -> MoveTrace {
    if tr.returned is Some {
        tr
    } else {
        let tr1 = if spec_tile_walkable(dest_tile) {
            let np = step_clamped(tr.pos, dx, dy, map);
            MoveTrace {
                pos: np,
                moved: true,
                dirty: true,
                point: Some(np),
                result: if dest_tile == TileType::DownStairs {
                    RunState::NextLevel
                } else if dest_tile == TileType::UpStairs {
                    RunState::PreviousLevel
                } else {
                    RunState::Ticking
                },
                ..tr
            }
        } else {
            tr
        };
        if some_swap_placed(tr1.swaps, traits) {
            MoveTrace { result: RunState::Ticking, ..tr1 }
        } else {
            tr1
        }
    }
}

/// The destination of a step lies on the map.
pub open spec fn dest_in_bounds(pos: Position, dx: i32, dy: i32, map: &GameMap) -> bool {
    0 <= pos.x + dx <= map.width - 1 && 0 <= pos.y + dy <= map.height - 1
}

/// The whole attempt to step by `(dx, dy)` from `pos`.
pub open spec fn spec_move(player: EntityId, pos: Position, dx: i32, dy: i32, map: &GameMap, traits: Seq<EntityTraits>) -> MoveTrace {
    let dest = spec_xy_idx(map.width as int, pos.x + dx, pos.y + dy);
    let targets = map.tile_content@[dest]@;
    let tr = targets_trace(targets, targets.len() as int, initial_trace(pos), player, traits, dx, dy, map);
    final_trace(tr, map.tiles@[dest], dx, dy, map, traits)
}

/// Where the player ends up after trying to step by `(dx, dy)` from `pos`: nowhere else
/// when the destination is off the map.
pub open spec fn spec_step_result(player: EntityId, pos: Position, dx: i32, dy: i32, map: &GameMap, traits: Seq<EntityTraits>) -> Position {
    if dest_in_bounds(pos, dx, dy, map) {
        spec_move(player, pos, dx, dy, map, traits).pos
    } else {
        pos
    }
}

/// The traits listed for `e`, first match first.
fn lookup_traits(traits: &Vec<EntityTraits>, e: EntityId) -> (t: EntityTraits)
    ensures
        t == traits_of(traits@, e),
{
    let mut i: usize = 0;
    assert(traits@.skip(0) =~= traits@);
    while i < traits.len()
        invariant
            i <= traits@.len(),
            traits_of(traits@, e) == traits_of(traits@.skip(i as int), e),
        decreases traits@.len() - i,
    {
        assert(traits@.skip(i as int).drop_first() =~= traits@.skip(i + 1));
        if traits[i].entity == e {
            return traits[i];
        }
        i = i + 1;
    }
    EntityTraits { entity: e, bystander: false, vendor: false, attackable: false, door: false, has_position: false }
}

/// `pos + d` kept within `0..=hi`.
fn clamp_add(pos: i32, d: i32, hi: i32) -> (r: i32)
    requires
        i32::MIN <= pos + d <= i32::MAX,
        0 <= hi,
    ensures
        r == clamp(pos + d, hi as int),
{
    let v = pos + d;
    let lo = if v < 0 { 0 } else { v };
    if hi < lo { hi } else { lo }
}

/// Some entity among the first `k` swaps has a position to update.
fn any_swap_placed(swaps: &Vec<(EntityId, Position)>, traits: &Vec<EntityTraits>) -> (r: bool)
    ensures
        r == some_swap_placed(swaps@, traits@),
{
    let mut i: usize = 0;
    while i < swaps.len()
        invariant
            i <= swaps@.len(),
            forall|j: int| 0 <= j < i ==> !traits_of(traits@, #[trigger] swaps@[j].0).has_position,
        decreases swaps@.len() - i,
    {
        let t = lookup_traits(traits, swaps[i].0);
        if t.has_position {
            return true;
        }
        i = i + 1;
    }
    false
}

/// Tries to step the player by `(delta_x, delta_y)`: off the map nothing happens;
/// otherwise the entities on the destination are dealt with in turn (swap with
/// bystanders and vendors, attack, open doors), blocked tiles are recomputed, and the
/// player steps onto a walkable destination.
pub fn try_move_player(delta_x: i32, delta_y: i32, map: &mut GameMap, player: EntityId, player_pos: Position, traits: &Vec<EntityTraits>) -> (out: MoveOutcome)
    requires
        old(map).wf(),
        i32::MIN <= player_pos.x + delta_x <= i32::MAX,
        i32::MIN <= player_pos.y + delta_y <= i32::MAX,
        dest_in_bounds(player_pos, delta_x, delta_y, &*old(map)) ==> old(map).width - 1 + delta_x <= i32::MAX
            && old(map).height - 1 + delta_y <= i32::MAX,
    ensures
        out.player_pos == spec_step_result(player, player_pos, delta_x, delta_y, &*old(map), traits@),
        !dest_in_bounds(player_pos, delta_x, delta_y, &*old(map)) ==> {
            &&& out.state == RunState::AwaitingInput
            &&& out.player_pos == player_pos
            &&& !out.moved && !out.viewshed_dirty
            &&& out.player_point is None
            &&& out.melee_target is None
            &&& out.opened_doors@.len() == 0
            &&& out.swaps@.len() == 0
            &&& *final(map) == *old(map)
        },
        dest_in_bounds(player_pos, delta_x, delta_y, &*old(map)) ==> {
            let tr = spec_move(player, player_pos, delta_x, delta_y, &*old(map), traits@);
            &&& out.state == (if tr.returned is Some { tr.returned->Some_0 } else { tr.result })
            &&& out.player_pos == tr.pos
            &&& out.moved == tr.moved
            &&& out.viewshed_dirty == tr.dirty
            &&& out.player_point == tr.point
            &&& out.melee_target == tr.melee
            &&& out.opened_doors@ == tr.doors
            &&& out.swaps@ == (if tr.returned is Some { Seq::empty() } else { tr.swaps })
            &&& final(map).wf()
            &&& forall|i: int| 0 <= i < final(map).tiles@.len() ==> final(map).blocked@[i] == !spec_tile_walkable(final(map).tiles@[i])
            &&& final(map).tiles == old(map).tiles
            &&& final(map).width == old(map).width
            &&& final(map).height == old(map).height
            &&& final(map).revealed_tiles == old(map).revealed_tiles
            &&& final(map).visible_tiles == old(map).visible_tiles
            &&& final(map).tile_content == old(map).tile_content
            &&& final(map).depth == old(map).depth
            &&& final(map).bloodstains == old(map).bloodstains
            &&& final(map).view_blocked == old(map).view_blocked
            &&& final(map).name == old(map).name
            &&& final(map).outdoors == old(map).outdoors
        },
        out.door_glyph == cp437('/'),
        out.melee_target matches Some(e) ==> !traits_of(traits@, e).bystander && !traits_of(traits@, e).vendor
            && traits_of(traits@, e).attackable,
        ({
            let content = old(map).tile_content@[spec_xy_idx(old(map).width as int, player_pos.x + delta_x, player_pos.y + delta_y)]@;
            dest_in_bounds(player_pos, delta_x, delta_y, &*old(map)) && out.melee_target is None && !content.contains(player)
                ==> forall|j: int|
                0 <= j < content.len() && (traits_of(traits@, #[trigger] content[j]).bystander || traits_of(traits@, content[j]).vendor)
                    ==> was_swapped(out.swaps@, content[j])
        }),
{
    let door_glyph = to_cp437('/');
    if player_pos.x + delta_x < 0 || player_pos.x + delta_x > map.width - 1 || player_pos.y + delta_y < 0
        || player_pos.y + delta_y > map.height - 1 {
        return MoveOutcome {
            state: RunState::AwaitingInput,
            player_pos,
            moved: false,
            viewshed_dirty: false,
            player_point: None,
            melee_target: None,
            opened_doors: Vec::new(),
            door_glyph,
            swaps: Vec::new(),
        };
    }
    let ghost m0 = *map;
    proof {
        law_bystanders_and_vendors_swap(player, player_pos, delta_x, delta_y, &m0, traits@);
    }
    proof {
        lemma_idx_in_grid(map.width as int, map.height as int, player_pos.x + delta_x, player_pos.y + delta_y);
    }
    let destination_idx = map.xy_idx(player_pos.x + delta_x, player_pos.y + delta_y);
    let targets = &map.tile_content[destination_idx];
    let entities_at_destination: Vec<EntityId> = copy_entities(targets);
    let ghost tseq = entities_at_destination@;
    let mut pos = player_pos;
    let mut result = RunState::AwaitingInput;
    let mut moved = false;
    let mut dirty = false;
    let mut point: Option<Position> = None;
    let mut doors: Vec<EntityId> = Vec::new();
    let mut swaps: Vec<(EntityId, Position)> = Vec::new();
    let mut i: usize = 0;
    while i < entities_at_destination.len()
        invariant
            i <= tseq.len(),
            tseq == entities_at_destination@,
            tseq == m0.tile_content@[destination_idx as int]@,
            m0.wf(),
            map.wf(),
            destination_idx == spec_xy_idx(m0.width as int, player_pos.x + delta_x, player_pos.y + delta_y),
            destination_idx < m0.tiles@.len(),
            dest_in_bounds(player_pos, delta_x, delta_y, &m0),
            m0.width - 1 + delta_x <= i32::MAX,
            m0.height - 1 + delta_y <= i32::MAX,
            pos == player_pos || (0 <= pos.x < m0.width && 0 <= pos.y < m0.height),
            m0 == *old(map),
            door_glyph == cp437('/'),
            i32::MIN <= player_pos.x + delta_x <= i32::MAX,
            i32::MIN <= player_pos.y + delta_y <= i32::MAX,
            i > 0 ==> forall|j: int| 0 <= j < map.tiles@.len() ==> map.blocked@[j] == !spec_tile_walkable(map.tiles@[j]),
            map.blocked@.len() == m0.blocked@.len(),
            i == 0 ==> *map == m0,
            map.tiles == m0.tiles,
            map.width == m0.width,
            map.height == m0.height,
            map.revealed_tiles == m0.revealed_tiles,
            map.visible_tiles == m0.visible_tiles,
            map.tile_content == m0.tile_content,
            map.depth == m0.depth,
            map.bloodstains == m0.bloodstains,
            map.view_blocked == m0.view_blocked,
            map.name == m0.name,
            map.outdoors == m0.outdoors,
            ({
                let tr = targets_trace(tseq, i as int, initial_trace(player_pos), player, traits@, delta_x, delta_y, &m0);
                &&& tr.returned is None
                &&& tr.pos == pos
                &&& tr.result == result
                &&& tr.moved == moved
                &&& tr.dirty == dirty
                &&& tr.point == point
                &&& tr.doors == doors@
                &&& tr.swaps == swaps@
                &&& tr.melee is None
            }),
        decreases tseq.len() - i,
    {
        let potential_target = entities_at_destination[i];
        map.populate_blocked();
        let ghost before = targets_trace(tseq, i as int, initial_trace(player_pos), player, traits@, delta_x, delta_y, &m0);
        if potential_target == player {
            assert(targets_trace(tseq, i + 1, initial_trace(player_pos), player, traits@, delta_x, delta_y, &m0)
                == target_step(before, potential_target, player, traits@, delta_x, delta_y, &m0));
            proof {
                lemma_trace_stays_returned(tseq, i + 1, tseq.len() as int, initial_trace(player_pos), player, traits@, delta_x, delta_y, &m0);
            }
            return MoveOutcome {
                state: RunState::AwaitingInput,
                player_pos: pos,
                moved,
                viewshed_dirty: dirty,
                player_point: point,
                melee_target: None,
                opened_doors: doors,
                door_glyph,
                swaps: Vec::new(),
            };
        }
        let tt = lookup_traits(traits, potential_target);
        if tt.bystander || tt.vendor {
            swaps.push((potential_target, pos));
            let nx = clamp_add(pos.x, delta_x, map.width - 1);
            let ny = clamp_add(pos.y, delta_y, map.height - 1);
            pos = Position { x: nx, y: ny };
            moved = true;
            dirty = true;
            point = Some(pos);
            result = RunState::Ticking;
        } else {
            if tt.attackable {
                assert(targets_trace(tseq, i + 1, initial_trace(player_pos), player, traits@, delta_x, delta_y, &m0)
                    == target_step(before, potential_target, player, traits@, delta_x, delta_y, &m0));
                proof {
                    lemma_trace_stays_returned(tseq, i + 1, tseq.len() as int, initial_trace(player_pos), player, traits@, delta_x, delta_y, &m0);
                }
                return MoveOutcome {
                    state: RunState::Ticking,
                    player_pos: pos,
                    moved,
                    viewshed_dirty: dirty,
                    player_point: point,
                    melee_target: Some(potential_target),
                    opened_doors: doors,
                    door_glyph,
                    swaps: Vec::new(),
                };
            }
        }
        if tt.door {
            doors.push(potential_target);
            dirty = true;
            result = RunState::Ticking;
        }
        assert(targets_trace(tseq, i + 1, initial_trace(player_pos), player, traits@, delta_x, delta_y, &m0)
            == target_step(before, potential_target, player, traits@, delta_x, delta_y, &m0));
        i = i + 1;
    }
    map.populate_blocked();
    if !map.blocked[destination_idx] {
        let nx = clamp_add(pos.x, delta_x, map.width - 1);
        let ny = clamp_add(pos.y, delta_y, map.height - 1);
        pos = Position { x: nx, y: ny };
        moved = true;
        dirty = true;
        point = Some(pos);
        result = RunState::Ticking;
        match map.tiles[destination_idx] {
            TileType::DownStairs => result = RunState::NextLevel,
            TileType::UpStairs => result = RunState::PreviousLevel,
            _ => {},
        }
    }
    if any_swap_placed(&swaps, traits) {
        result = RunState::Ticking;
    }
    MoveOutcome {
        state: result,
        player_pos: pos,
        moved,
        viewshed_dirty: dirty,
        player_point: point,
        melee_target: None,
        opened_doors: doors,
        door_glyph,
        swaps,
    }
}

/// Once the attempt has ended, considering more entities changes nothing.
proof fn lemma_trace_stays_returned(targets: Seq<EntityId>, k: int, n: int, start: MoveTrace, player: EntityId, traits: Seq<EntityTraits>, dx: i32, dy: i32, map: &GameMap)
    requires
        0 <= k <= n,
        targets_trace(targets, k, start, player, traits, dx, dy, map).returned is Some,
    ensures
        targets_trace(targets, n, start, player, traits, dx, dy, map) == targets_trace(targets, k, start, player, traits, dx, dy, map),
    decreases n - k,
{
    if n > k {
        lemma_trace_stays_returned(targets, k, n - 1, start, player, traits, dx, dy, map);
    }
}

/// A fresh list holding the same entities.
fn copy_entities(v: &Vec<EntityId>) -> (r: Vec<EntityId>)
    ensures
        r@ == v@,
{
    let mut r: Vec<EntityId> = Vec::new();
    let mut i: usize = 0;
    while i < v.len()
        invariant
            i <= v@.len(),
            r@ == v@.take(i as int),
        decreases v@.len() - i,
    {
        r.push(v[i]);
        i = i + 1;
        assert(r@ =~= v@.take(i as int));
    }
    assert(v@.take(i as int) =~= v@);
    r
}

/// The entity swaps with the player rather than being attacked: a bystander or a vendor.
pub open spec fn swaps_places(traits: Seq<EntityTraits>, e: EntityId) -> bool {
    traits_of(traits, e).bystander || traits_of(traits, e).vendor
}

/// `e` is among the entities that took the player's former places.
pub open spec fn was_swapped(swaps: Seq<(EntityId, Position)>, e: EntityId) -> bool {
    exists|i: int| 0 <= i < swaps.len() && (#[trigger] swaps[i]).0 == e
}

/// Along the entities on the destination: the attack target, if any, is an attackable
/// entity that does not swap places; the attempt only ends early at an attack or at the
/// player itself; until it ends, every entity that swaps places has been swapped.
proof fn lemma_trace_swaps_and_attacks(targets: Seq<EntityId>, k: int, start: MoveTrace, player: EntityId, traits: Seq<EntityTraits>, dx: i32, dy: i32, map: &GameMap)
    requires
        0 <= k <= targets.len(),
        start.returned is None,
        start.melee is None,
    ensures
        ({
            let tr = targets_trace(targets, k, start, player, traits, dx, dy, map);
            &&& tr.melee matches Some(e) ==> !swaps_places(traits, e) && traits_of(traits, e).attackable
            &&& tr.returned is Some ==> tr.melee is Some || exists|j: int| 0 <= j < k && targets[j] == player
            &&& tr.returned is None ==> tr.melee is None
            &&& tr.returned is None ==> forall|j: int|
                0 <= j < k && swaps_places(traits, #[trigger] targets[j]) ==> was_swapped(tr.swaps, targets[j])
        }),
    decreases k,
{
    if k > 0 {
        lemma_trace_swaps_and_attacks(targets, k - 1, start, player, traits, dx, dy, map);
        let prev = targets_trace(targets, k - 1, start, player, traits, dx, dy, map);
        let tr = targets_trace(targets, k, start, player, traits, dx, dy, map);
        let t = targets[k - 1];
        if prev.returned is None && tr.returned is None {
            assert forall|j: int|
                0 <= j < k && swaps_places(traits, #[trigger] targets[j]) implies was_swapped(tr.swaps, targets[j]) by {
                if j < k - 1 {
                    let i = choose|i: int| 0 <= i < prev.swaps.len() && (#[trigger] prev.swaps[i]).0 == targets[j];
                    if swaps_places(traits, t) {
                        assert(tr.swaps == prev.swaps.push((t, prev.pos)));
                        assert(tr.swaps[i] == prev.swaps[i]);
                    }
                } else {
                    assert(tr.swaps == prev.swaps.push((t, prev.pos)));
                    assert(tr.swaps[prev.swaps.len() as int].0 == targets[j]);
                }
            }
        }
        if tr.returned is Some && prev.returned is None && tr.melee is None {
            assert(targets[k - 1] == player);
        }
    }
}

/// Bystanders and vendors on the destination swap places with the player and are never
/// attacked: the step's attack target is an attackable entity that is neither, and when
/// the step was not cut short (no attack, and the player is not itself on the
/// destination) every bystander or vendor there took one of the player's former places.
pub proof fn law_bystanders_and_vendors_swap(player: EntityId, pos: Position, dx: i32, dy: i32, map: &GameMap, traits: Seq<EntityTraits>)
    requires
        dest_in_bounds(pos, dx, dy, map),
    ensures
        ({
            let tr = spec_move(player, pos, dx, dy, map, traits);
            let content = map.tile_content@[spec_xy_idx(map.width as int, pos.x + dx, pos.y + dy)]@;
            &&& tr.melee matches Some(e) ==> !traits_of(traits, e).bystander && !traits_of(traits, e).vendor
                && traits_of(traits, e).attackable
            &&& tr.melee is None && !content.contains(player) ==> {
                &&& tr.returned is None
                &&& forall|j: int|
                    0 <= j < content.len() && (traits_of(traits, #[trigger] content[j]).bystander || traits_of(traits, content[j]).vendor)
                        ==> was_swapped(tr.swaps, content[j])
            }
        }),
{
    let content = map.tile_content@[spec_xy_idx(map.width as int, pos.x + dx, pos.y + dy)]@;
    lemma_trace_swaps_and_attacks(content, content.len() as int, initial_trace(pos), player, traits, dx, dy, map);
    let tr0 = targets_trace(content, content.len() as int, initial_trace(pos), player, traits, dx, dy, map);
    if tr0.returned is Some && tr0.melee is None {
        let j = choose|j: int| 0 <= j < content.len() && content[j] == player;
        assert(content.contains(player));
    }
    assert forall|j: int|
        0 <= j < content.len() && (traits_of(traits, #[trigger] content[j]).bystander || traits_of(traits, content[j]).vendor)
            && tr0.returned is None implies was_swapped(tr0.swaps, content[j]) by {
        assert(swaps_places(traits, content[j]));
    }
}

/// A player standing on the map stays on the map whatever the step, the entities in
/// the way and the destination tile.
pub proof fn law_player_stays_on_map(player: EntityId, pos: Position, dx: i32, dy: i32, map: &GameMap, traits: Seq<EntityTraits>)
    requires
        map.wf(),
        map.in_bounds(pos.x as int, pos.y as int),
    ensures
        ({
            let p = spec_step_result(player, pos, dx, dy, map, traits);
            map.in_bounds(p.x as int, p.y as int)
        }),
{
    if dest_in_bounds(pos, dx, dy, map) {
        let dest = spec_xy_idx(map.width as int, pos.x + dx, pos.y + dy);
        let targets = map.tile_content@[dest]@;
        lemma_trace_on_map(targets, targets.len() as int, initial_trace(pos), player, traits, dx, dy, map);
    }
}

proof fn lemma_trace_on_map(targets: Seq<EntityId>, k: int, start: MoveTrace, player: EntityId, traits: Seq<EntityTraits>, dx: i32, dy: i32, map: &GameMap)
    requires
        map.width >= 1,
        map.height >= 1,
        map.in_bounds(start.pos.x as int, start.pos.y as int),
    ensures
        ({
            let tr = targets_trace(targets, k, start, player, traits, dx, dy, map);
            map.in_bounds(tr.pos.x as int, tr.pos.y as int)
        }),
    decreases k,
{
    if k > 0 {
        lemma_trace_on_map(targets, k - 1, start, player, traits, dx, dy, map);
    }
}

} // verus!
