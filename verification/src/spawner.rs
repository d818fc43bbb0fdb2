use vstd::prelude::*;
use std::collections::HashMap;
use rltk::RandomNumberGenerator;
use crate::components::{Position, Rect};
use crate::map::{GameMap, lemma_idx_to_xy, lemma_idx_in_grid, spec_xy_idx};
use crate::rng::roll_dice;
use crate::tiles::{TileType, tile_walkable, spec_tile_walkable};

verus! {

broadcast use vstd::std_specs::hash::group_hash_axioms;

/// Where the entity of a spawn entry on tile `idx` goes, and whether it can be placed
/// there: spawning into a wall is refused.
pub fn spawn_entity(map: &GameMap, spawn: &(usize, String)) -> (placement: (Position, bool))
    requires
        map.wf(),
        spawn.0 < map.tile_count(),
    ensures
        placement.0.x == spawn.0 as int % map.width as int,
        placement.0.y == spawn.0 as int / map.width as int,
        spec_xy_idx(map.width as int, placement.0.x as int, placement.0.y as int) == spawn.0,
        placement.1 == spec_tile_walkable(map.tiles@[spawn.0 as int]),
{
    proof {
        lemma_idx_to_xy(map.width as int, map.height as int, spawn.0 as int);
    }
    let (ux, uy) = map.idx_xy(spawn.0);
    let x = ux as i32;
    let y = uy as i32;
    let idx = map.xy_idx(x, y);
    (Position { x, y }, tile_walkable(map.tiles[idx]))
}

/// The most monsters a region gets on the first level, before the dice.
pub const MAX_MONSTERS: i32 = 4;

/// After `k` picks from `area`, what remains and the tiles picked, in order: pick `j`
/// takes the element at position `picks[j]` of what remains.
pub open spec fn pick_state(area: Seq<usize>, picks: Seq<int>, k: int) -> (Seq<usize>, Seq<usize>)
    decreases k,
{
    if k <= 0 {
        (area, Seq::empty())
    } else {
        let (rem, chosen) = pick_state(area, picks, k - 1);
        (rem.remove(picks[k - 1]), chosen.push(rem[picks[k - 1]]))
    }
}

/// Every pick takes an element of what remains.
pub open spec fn valid_picks(area_len: int, picks: Seq<int>) -> bool {
    forall|j: int| 0 <= j < picks.len() ==> 0 <= #[trigger] picks[j] < area_len - j
}

/// The number of spawns in a region of `area_len` tiles for a roll of the monster die:
/// deeper levels get more, never more than there are tiles.
pub open spec fn spawn_count(area_len: int, roll: int, depth: int) -> int {
    let wanted = roll + (depth - 1) - 3;
    if area_len < wanted { area_len } else { wanted }
}

/// The spawns of the first `k` picks: each picked floor tile gets the name rolled for
/// its pick (a later pick of the same tile wins); picked walls get nothing.
pub open spec fn spawn_points(map: &GameMap, chosen: Seq<usize>, names: Seq<String>, k: int) -> Map<usize, String>
    decreases k,
{
    if k <= 0 {
        Map::empty()
    } else {
        let prev = spawn_points(map, chosen, names, k - 1);
        if map.tiles@[chosen[k - 1] as int] == TileType::Floor {
            prev.insert(chosen[k - 1], names[k - 1])
        } else {
            prev
        }
    }
}

/// The spawn list grew by the spawns of a region for this roll of the monster die and
/// these picks of distinct places of `area`: the entries added are exactly the spawn
/// points of the picks (none when the roll asks for no spawns).
pub open spec fn spawned_with(map: &GameMap, area: Seq<usize>, map_depth: i32, names: Seq<String>, before: Seq<(usize, String)>, after: Seq<(usize, String)>, roll: int, picks: Seq<int>) -> bool {
    let n = spawn_count(area.len() as int, roll, map_depth as int);
    &&& 1 <= roll <= MAX_MONSTERS + 3
    &&& n <= 0 ==> after == before
    &&& n > 0 ==> {
        let chosen = pick_state(area, picks, n).1;
        let points = spawn_points(map, chosen, names, n);
        let added = after.skip(before.len() as int);
        &&& picks.len() == n
        &&& valid_picks(area.len() as int, picks)
        &&& before.len() <= after.len()
        &&& after.take(before.len() as int) == before
        &&& added.len() == points.dom().len()
        &&& added.to_set() == points.kv_pairs()
    }
}

/// The spawn list grew by the spawns of a region, for some roll of the monster die and
/// some picks of distinct places of `area`.
pub open spec fn region_spawned(map: &GameMap, area: Seq<usize>, map_depth: i32, names: Seq<String>, before: Seq<(usize, String)>, after: Seq<(usize, String)>) -> bool {
    exists|roll: int, picks: Seq<int>| #[trigger] spawned_with(map, area, map_depth, names, before, after, roll, picks)
}

/// Fills a region with stuff: rolls how many spawns the region gets, picks that many
/// distinct places of `area` at random, and adds a spawn entry for each picked floor
/// tile, named by the spawn-table roll made for its pick (`rolled_names[j]` for pick
/// `j`). The entries are added in no particular order.
pub fn spawn_region(map: &GameMap, rng: &mut RandomNumberGenerator, area: &[usize], map_depth: i32, rolled_names: &Vec<String>, spawn_list: &mut Vec<(usize, String)>)
    requires
        map.wf(),
        forall|j: int| 0 <= j < area@.len() ==> (#[trigger] area@[j]) < map.tiles@.len(),
        area@.len() < i32::MAX,
        rolled_names@.len() >= area@.len(),
        i32::MIN + 3 <= map_depth <= i32::MAX - 6,
    ensures
        region_spawned(map, area@, map_depth, rolled_names@, old(spawn_list)@, final(spawn_list)@),
{
    let area_len = area.len();
    let dice = roll_dice(rng, 1, MAX_MONSTERS + 3);
    let wanted = dice + (map_depth - 1) - 3;
    let num_spawns: i32 = if (area_len as i32) < wanted { area_len as i32 } else { wanted };
    let ghost n = num_spawns as int;
    if num_spawns == 0 {
        assert(spawn_count(area@.len() as int, dice as int, map_depth as int) == 0);
        assert(spawned_with(map, area@, map_depth, rolled_names@, old(spawn_list)@, spawn_list@, dice as int, Seq::<int>::empty()));
        return;
    }
    let mut areas: Vec<usize> = Vec::new();
    let mut c: usize = 0;
    while c < area_len
        invariant
            c <= area_len,
            area_len == area@.len(),
            areas@ == area@.take(c as int),
        decreases area_len - c,
    {
        areas.push(area[c]);
        c = c + 1;
        assert(areas@ =~= area@.take(c as int));
    }
    assert(areas@ =~= area@);
    let mut spawn_points_map: HashMap<usize, String> = HashMap::new();
    let ghost mut picks: Seq<int> = Seq::empty();
    let mut i: i32 = 0;
    while i < num_spawns
        invariant
            0 <= i,
            n == num_spawns,
            n <= area@.len(),
            i <= n || n < 0,
            n < 0 ==> i == 0,
            map.wf(),
            forall|j: int| 0 <= j < area@.len() ==> (#[trigger] area@[j]) < map.tiles@.len(),
            area@.len() < i32::MAX,
            rolled_names@.len() >= area@.len(),
            picks.len() == i,
            valid_picks(area@.len() as int, picks),
            areas@ == pick_state(area@, picks, i as int).0,
            areas@.len() == area@.len() - i,
            forall|j: int| 0 <= j < areas@.len() ==> (#[trigger] areas@[j]) < map.tiles@.len(),
            spawn_points_map@ == spawn_points(map, pick_state(area@, picks, i as int).1, rolled_names@, i as int),
            pick_state(area@, picks, i as int).1.len() == i,
        decreases n - i,
    {
        let array_index: usize = if areas.len() == 1 {
            0
        } else {
            (roll_dice(rng, 1, areas.len() as i32) - 1) as usize
        };
        let map_idx = areas[array_index];
        let to_spawn = rolled_names[i as usize].clone();
        let ghost prev_picks = picks;
        proof {
            picks = picks.push(array_index as int);
            lemma_pick_state_prefix(area@, prev_picks, picks, i as int);
        }
        if map.tiles[map_idx] == TileType::Floor {
            spawn_points_map.insert(map_idx, to_spawn);
        }
        areas.remove(array_index);
        proof {
            let c0 = pick_state(area@, picks, i as int).1;
            let c1 = pick_state(area@, picks, i + 1).1;
            assert(c1 == c0.push(map_idx));
            lemma_spawn_points_prefix(map, c0, c1, rolled_names@, i as int);
        }
        i = i + 1;
    }
    let ghost old_list = spawn_list@;
    let ghost points = spawn_points_map@;
    for entry in it: spawn_points_map.iter()
        invariant
            it.seq().unref().to_set() == points.kv_pairs(),
            it.seq().len() == points.dom().len(),
            spawn_list@ == old_list + it.seq().take(it.index()).unref(),
            it.index() == it.seq().len() ==> spawn_list@ == old_list + it.seq().unref(),
            it.index() == it.seq().len() ==> spawn_list@.skip(old_list.len() as int).to_set() == points.kv_pairs(),
    {
        let (k, v) = entry;
        spawn_list.push((*k, v.clone()));
        assert(spawn_list@ =~= old_list + it.seq().take(it.index() + 1).unref());
        assert(it.index() + 1 == it.seq().len() ==> it.seq().take(it.index() + 1) =~= it.seq());
        assert(it.index() + 1 == it.seq().len() ==> spawn_list@.skip(old_list.len() as int) =~= it.seq().unref());
    }
    assert(old_list + Seq::<(usize, String)>::empty() =~= old_list);
    proof {
        let added = spawn_list@.skip(old_list.len() as int);
        assert(spawn_list@.take(old_list.len() as int) =~= old_list);
        assert(n > 0 ==> picks.len() == n);
        assert(n > 0 ==> spawn_points_map@ == spawn_points(map, pick_state(area@, picks, n).1, rolled_names@, n));
        assert(added.len() == points.dom().len());
        assert(added.to_set() == points.kv_pairs());
        assert(n <= 0 ==> spawn_list@ == old_list);
        assert(spawn_count(area@.len() as int, dice as int, map_depth as int) == n);
        assert(valid_picks(area@.len() as int, picks));
        assert(spawned_with(map, area@, map_depth, rolled_names@, old(spawn_list)@, spawn_list@, dice as int, picks));
    }
}

/// After `k` valid picks, `k` tiles were picked and `k` fewer remain, all from `area`.
proof fn lemma_pick_state_from_area(area: Seq<usize>, picks: Seq<int>, k: int)
    requires
        0 <= k <= picks.len(),
        k <= area.len(),
        valid_picks(area.len() as int, picks),
    ensures
        pick_state(area, picks, k).0.len() == area.len() - k,
        pick_state(area, picks, k).1.len() == k,
        forall|i: int| 0 <= i < pick_state(area, picks, k).0.len() ==> area.contains(#[trigger] pick_state(area, picks, k).0[i]),
        forall|j: int| 0 <= j < k ==> area.contains(#[trigger] pick_state(area, picks, k).1[j]),
    decreases k,
{
    if k > 0 {
        lemma_pick_state_from_area(area, picks, k - 1);
        let (rem, chosen) = pick_state(area, picks, k - 1);
        let p = picks[k - 1];
        assert(0 <= p < area.len() - (k - 1));
        rem.remove_ensures(p);
        let rem1 = rem.remove(p);
        let chosen1 = chosen.push(rem[p]);
        assert(area.contains(rem[p]));
        assert forall|i: int| 0 <= i < rem1.len() implies area.contains(#[trigger] rem1[i]) by {
            if i < p {
                assert(rem1[i] == rem[i]);
            } else {
                assert(rem1[i] == rem[i + 1]);
            }
        }
        assert forall|j: int| 0 <= j < k implies area.contains(#[trigger] chosen1[j]) by {
            if j < k - 1 {
                assert(chosen1[j] == chosen[j]);
            }
        }
    }
}

/// Every tile that gets a spawn among the first `k` picks is a picked floor tile.
proof fn lemma_spawn_point_keys(map: &GameMap, chosen: Seq<usize>, names: Seq<String>, k: int)
    requires
        0 <= k <= chosen.len(),
    ensures
        spawn_points(map, chosen, names, k).dom().finite(),
        spawn_points(map, chosen, names, k).dom().subset_of(chosen.to_set()),
        forall|key: usize|
            #[trigger] spawn_points(map, chosen, names, k).dom().contains(key) ==> map.tiles@[key as int]
                == TileType::Floor,
    decreases k,
{
    if k > 0 {
        lemma_spawn_point_keys(map, chosen, names, k - 1);
        assert(chosen.to_set().contains(chosen[k - 1]));
    }
}

/// The spawns a region adds lie on floor tiles of the region, at most one on each tile,
/// and there are no more of them than the region has tiles, nor than the deepest roll
/// of the monster die allows (`map_depth + 3`); the entries already listed stay first.
pub proof fn law_region_spawns_on_distinct_floor(map: &GameMap, area: Seq<usize>, map_depth: i32, names: Seq<String>, before: Seq<(usize, String)>, after: Seq<(usize, String)>)
    requires
        region_spawned(map, area, map_depth, names, before, after),
    ensures
        after.len() >= before.len(),
        after.take(before.len() as int) == before,
        forall|i: int|
            before.len() <= i < after.len() ==> area.contains((#[trigger] after[i]).0) && map.tiles@[after[i].0 as int]
                == TileType::Floor,
        forall|i: int, j: int|
            before.len() <= i < j < after.len() ==> (#[trigger] after[i]).0 != (#[trigger] after[j]).0,
        after.len() - before.len() <= area.len(),
        after.len() - before.len() <= (if map_depth + 3 < 0 { 0 } else { map_depth + 3 }),
{
    let (roll, picks) = choose|roll: int, picks: Seq<int>| spawned_with(map, area, map_depth, names, before, after, roll, picks);
    let n = spawn_count(area.len() as int, roll, map_depth as int);
    if n <= 0 {
        assert(after.take(before.len() as int) =~= before);
        return;
    }
    let chosen = pick_state(area, picks, n).1;
    let points = spawn_points(map, chosen, names, n);
    let added = after.skip(before.len() as int);
    lemma_pick_state_from_area(area, picks, n);
    lemma_spawn_point_keys(map, chosen, names, n);
    // Each added entry is a spawn point: a picked floor tile of the area.
    assert forall|i: int| 0 <= i < added.len() implies points.dom().contains((#[trigger] added[i]).0)
        && points[added[i].0] == added[i].1 by {
        assert(added.to_set().contains(added[i]));
    }
    assert forall|i: int|
        before.len() <= i < after.len() implies area.contains((#[trigger] after[i]).0) && map.tiles@[after[i].0 as int]
            == TileType::Floor by {
        assert(after[i] == added[i - before.len()]);
        let key = after[i].0;
        assert(points.dom().contains(key));
        assert(chosen.to_set().contains(key));
        let j = choose|j: int| 0 <= j < chosen.len() && chosen[j] == key;
        assert(area.contains(chosen[j]));
    }
    // The tiles of the added entries are exactly the spawn points' tiles, one entry each.
    let keys = added.map_values(|e: (usize, String)| e.0);
    assert(keys.to_set() =~= points.dom()) by {
        assert forall|key: usize| points.dom().contains(key) implies keys.to_set().contains(key) by {
            assert(points.kv_pairs().contains((key, points[key])));
            assert(added.to_set().contains((key, points[key])));
            let i = choose|i: int| 0 <= i < added.len() && added[i] == (key, points[key]);
            assert(keys[i] == key);
        }
        assert forall|key: usize| keys.to_set().contains(key) implies points.dom().contains(key) by {
            let i = choose|i: int| 0 <= i < keys.len() && keys[i] == key;
            assert(keys[i] == added[i].0);
        }
    }
    keys.lemma_no_dup_set_cardinality();
    assert forall|i: int, j: int|
        before.len() <= i < j < after.len() implies (#[trigger] after[i]).0 != (#[trigger] after[j]).0 by {
        let a = i - before.len();
        let b = j - before.len();
        assert(keys[a] == after[i].0);
        assert(keys[b] == after[j].0);
    }
    // As many entries as spawn points, and no more spawn points than picks.
    vstd::set_lib::lemma_len_subset(points.dom(), chosen.to_set());
    chosen.lemma_cardinality_of_set();
}

/// The spawns of the first `k` picks depend only on those picks.
proof fn lemma_spawn_points_prefix(map: &GameMap, c0: Seq<usize>, c1: Seq<usize>, names: Seq<String>, k: int)
    requires
        0 <= k <= c0.len(),
        k <= c1.len(),
        forall|j: int| 0 <= j < k ==> c0[j] == c1[j],
    ensures
        spawn_points(map, c0, names, k) == spawn_points(map, c1, names, k),
    decreases k,
{
    if k > 0 {
        lemma_spawn_points_prefix(map, c0, c1, names, k - 1);
    }
}

/// Appending a pick leaves the earlier pick states unchanged.
proof fn lemma_pick_state_prefix(area: Seq<usize>, picks: Seq<int>, longer: Seq<int>, k: int)
    requires
        0 <= k <= picks.len(),
        picks.len() <= longer.len(),
        forall|j: int| 0 <= j < picks.len() ==> picks[j] == longer[j],
    ensures
        pick_state(area, picks, k) == pick_state(area, longer, k),
    decreases k,
{
    if k > 0 {
        lemma_pick_state_prefix(area, picks, longer, k - 1);
    }
}

/// The floor tiles of row `y` between columns `x0` (inclusive) and `x1` (exclusive),
/// left to right.
pub open spec fn floor_in_row(map: &GameMap, y: int, x0: int, x1: int) -> Seq<usize>
    decreases x1 - x0,
{
    if x1 <= x0 {
        Seq::empty()
    } else {
        let prev = floor_in_row(map, y, x0, x1 - 1);
        let idx = spec_xy_idx(map.width as int, x1 - 1, y);
        if map.tiles@[idx] == TileType::Floor {
            prev.push(idx as usize)
        } else {
            prev
        }
    }
}

/// The floor tiles strictly inside `room`, row by row from the top, rows before `y1`.
pub open spec fn floor_in_room(map: &GameMap, room: Rect, y1: int) -> Seq<usize>
    decreases y1 - room.y1,
{
    if y1 <= room.y1 + 1 {
        Seq::empty()
    } else {
        floor_in_room(map, room, y1 - 1) + floor_in_row(map, y1 - 1, room.x1 + 1, room.x2 as int)
    }
}

/// The interior of `room` lies on the map (or is empty).
pub open spec fn room_interior_on_map(map: &GameMap, room: Rect) -> bool {
    (room.x1 + 1 < room.x2 && room.y1 + 1 < room.y2) ==> (0 <= room.x1 + 1 && room.x2 <= map.width
        && 0 <= room.y1 + 1 && room.y2 <= map.height)
}

/// The floor tiles strictly inside a room, row by row from the top.
pub fn room_floor_tiles(map: &GameMap, room: &Rect) -> (targets: Vec<usize>)
    requires
        map.wf(),
        room.x1 < i32::MAX,
        room.y1 < i32::MAX,
        room_interior_on_map(map, *room),
    ensures
        targets@ == floor_in_room(map, *room, room.y2 as int),
{
    let mut possible_targets: Vec<usize> = Vec::new();
    let mut y = room.y1 + 1;
    while y < room.y2
        invariant
            map.wf(),
            room.y1 + 1 <= y,
            room.x1 < i32::MAX,
            room_interior_on_map(map, *room),
            y <= room.y2 || y == room.y1 + 1,
            possible_targets@ == floor_in_room(map, *room, y as int),
        decreases room.y2 - y,
    {
        let mut x = room.x1 + 1;
        let ghost row_start = possible_targets@;
        while x < room.x2
            invariant
                map.wf(),
                room.x1 + 1 <= x,
                x <= room.x2 || x == room.x1 + 1,
                room.y1 + 1 <= y < room.y2,
                room_interior_on_map(map, *room),
                possible_targets@ == row_start + floor_in_row(map, y as int, room.x1 + 1, x as int),
            decreases room.x2 - x,
        {
            proof {
                lemma_idx_in_grid(map.width as int, map.height as int, x as int, y as int);
            }
            let idx = map.xy_idx(x, y);
            if map.tiles[idx] == TileType::Floor {
                possible_targets.push(idx);
            }
            assert(possible_targets@ =~= row_start + floor_in_row(map, y as int, room.x1 + 1, x + 1));
            x = x + 1;
        }
        assert(floor_in_row(map, y as int, room.x1 + 1, x as int) == floor_in_row(map, y as int, room.x1 + 1, room.x2 as int)) by {
            if room.x2 <= room.x1 + 1 {
                assert(floor_in_row(map, y as int, room.x1 + 1, room.x2 as int) =~= Seq::<usize>::empty());
            }
        }
        y = y + 1;
    }
    if room.y2 <= room.y1 + 1 {
        assert(floor_in_room(map, *room, room.y2 as int) =~= Seq::<usize>::empty());
    }
    possible_targets
}

/// Fills a room with stuff: `spawn_region` over the room's floor tiles.
pub fn spawn_room(map: &GameMap, rng: &mut RandomNumberGenerator, room: &Rect, map_depth: i32, rolled_names: &Vec<String>, spawn_list: &mut Vec<(usize, String)>)
    requires
        map.wf(),
        room.x1 < i32::MAX,
        room.y1 < i32::MAX,
        room_interior_on_map(map, *room),
        floor_in_room(map, *room, room.y2 as int).len() < i32::MAX,
        rolled_names@.len() >= floor_in_room(map, *room, room.y2 as int).len(),
        i32::MIN + 3 <= map_depth <= i32::MAX - 6,
    ensures
        region_spawned(map, floor_in_room(map, *room, room.y2 as int), map_depth, rolled_names@, old(spawn_list)@, final(spawn_list)@),
{
    let possible_targets = room_floor_tiles(map, room);
    proof {
        lemma_room_floor_on_map(map, *room, room.y2 as int);
    }
    let area = possible_targets.as_slice();
    assert(area@ == floor_in_room(map, *room, room.y2 as int));
    spawn_region(map, rng, area, map_depth, rolled_names, spawn_list);
}

proof fn lemma_row_floor_on_map(map: &GameMap, y: int, x0: int, x1: int)
    requires
        map.wf(),
        0 <= y < map.height,
        x0 < x1 ==> 0 <= x0 && x1 <= map.width,
    ensures
        forall|j: int| 0 <= j < floor_in_row(map, y, x0, x1).len() ==> (#[trigger] floor_in_row(map, y, x0, x1)[j]) < map.tiles@.len(),
    decreases x1 - x0,
{
    if x1 > x0 {
        lemma_row_floor_on_map(map, y, x0, x1 - 1);
        lemma_idx_in_grid(map.width as int, map.height as int, x1 - 1, y);
        let prev = floor_in_row(map, y, x0, x1 - 1);
        let idx = spec_xy_idx(map.width as int, x1 - 1, y);
        assert forall|j: int| 0 <= j < prev.push(idx as usize).len() implies (#[trigger] prev.push(idx as usize)[j]) < map.tiles@.len() by {
            if j < prev.len() {
                assert(prev.push(idx as usize)[j] == prev[j]);
            }
        }
    }
}

proof fn lemma_room_floor_on_map(map: &GameMap, room: Rect, y1: int)
    requires
        map.wf(),
        room_interior_on_map(map, room),
        y1 <= room.y2,
    ensures
        forall|j: int| 0 <= j < floor_in_room(map, room, y1).len() ==> (#[trigger] floor_in_room(map, room, y1)[j]) < map.tiles@.len(),
    decreases y1 - room.y1,
{
    if y1 > room.y1 + 1 {
        lemma_room_floor_on_map(map, room, y1 - 1);
        if room.x1 + 1 < room.x2 {
            lemma_row_floor_on_map(map, y1 - 1, room.x1 + 1, room.x2 as int);
        }
        let a = floor_in_room(map, room, y1 - 1);
        let b = floor_in_row(map, y1 - 1, room.x1 + 1, room.x2 as int);
        assert forall|j: int| 0 <= j < (a + b).len() implies (#[trigger] (a + b)[j]) < map.tiles@.len() by {
            if j >= a.len() {
                assert((a + b)[j] == b[j - a.len()]);
            }
        }
    }
}

} // verus!
