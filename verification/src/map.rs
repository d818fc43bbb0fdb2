use vstd::prelude::*;
use std::collections::HashSet;
use crate::tiles::{TileType, tile_walkable, tile_opaque, spec_tile_walkable, spec_tile_opaque};
use crate::entity::EntityId;
use crate::glyph::{cp437, to_cp437};

verus! {

broadcast use vstd::std_specs::hash::group_hash_axioms;

/// Index of the tile at column `x`, row `y` of a grid `width` tiles wide.
pub open spec fn spec_xy_idx(width: int, x: int, y: int) -> int {
    y * width + x
}

/// One level of the dungeon: a `width` x `height` grid of tiles stored row by row,
/// with per-tile visibility, blocking and content information.
pub struct GameMap {
    pub tiles: Vec<TileType>,
    pub width: i32,
    pub height: i32,
    pub revealed_tiles: Vec<bool>,
    pub visible_tiles: Vec<bool>,
    pub blocked: Vec<bool>,
    pub depth: i32,
    pub bloodstains: HashSet<usize>,
    pub view_blocked: HashSet<usize>,
    pub name: String,
    pub outdoors: bool,
    pub tile_content: Vec<Vec<EntityId>>,
}

impl GameMap {
    /// Number of tiles of the grid.
    pub open spec fn tile_count(&self) -> int {
        self.width * self.height
    }

    /// The grid's dimensions are non-negative, its tile count fits an `i32`, and every
    /// per-tile vector holds exactly one entry per tile.
    pub open spec fn wf(&self) -> bool {
        &&& 0 <= self.width
        &&& 0 <= self.height
        &&& self.width * self.height <= i32::MAX
        &&& self.tiles@.len() == self.tile_count()
        &&& self.revealed_tiles@.len() == self.tile_count()
        &&& self.visible_tiles@.len() == self.tile_count()
        &&& self.blocked@.len() == self.tile_count()
        &&& self.tile_content@.len() == self.tile_count()
    }

    /// Whether the map is well formed (see `wf`).
    pub fn is_well_formed(&self) -> (r: bool)
        ensures
            r == self.wf(),
    {
        if self.width < 0 || self.height < 0 {
            return false;
        }
        let w = self.width as i64;
        let h = self.height as i64;
        assert(0 <= w * h <= 0x7fff_ffff * 0x7fff_ffff) by (nonlinear_arith)
            requires
                0 <= w <= 0x7fff_ffff,
                0 <= h <= 0x7fff_ffff,
        ;
        let count = w * h;
        if count > 0x7fff_ffff {
            return false;
        }
        let n = count as usize;
        self.tiles.len() == n && self.revealed_tiles.len() == n && self.visible_tiles.len() == n
            && self.blocked.len() == n && self.tile_content.len() == n
    }

    /// `(x, y)` lies on the grid.
    pub open spec fn in_bounds(&self, x: int, y: int) -> bool {
        0 <= x < self.width && 0 <= y < self.height
    }

    /// A creature may step onto `(x, y)`: it lies strictly inside the border ring
    /// and is not blocked.
    pub open spec fn spec_exit_valid(&self, x: int, y: int) -> bool {
        &&& 1 <= x <= self.width - 1
        &&& 1 <= y <= self.height - 1
        &&& !self.blocked@[spec_xy_idx(self.width as int, x, y)]
    }

    /// Whether a creature may step onto `(x, y)`.
    pub fn is_exit_valid(&self, x: i32, y: i32) -> (r: bool)
        requires
            self.wf(),
        ensures
            r == self.spec_exit_valid(x as int, y as int),
    {
        if x < 1 || x > self.width - 1 || y < 1 || y > self.height - 1 {
            return false;
        }
        proof {
            lemma_idx_in_grid(self.width as int, self.height as int, x as int, y as int);
        }
        let idx = self.xy_idx(x, y);
        !self.blocked[idx]
    }

    /// Recomputes `blocked` from the tiles: a tile is blocked exactly when it cannot be
    /// walked on; entries beyond the last tile are cleared.
    pub fn populate_blocked(&mut self)
        requires
            old(self).blocked@.len() >= old(self).tiles@.len(),
        ensures
            final(self).blocked@.len() == old(self).blocked@.len(),
            forall|i: int|
                0 <= i < old(self).tiles@.len() ==> final(self).blocked@[i] == !spec_tile_walkable(
                    old(self).tiles@[i],
                ),
            forall|i: int|
                old(self).tiles@.len() <= i < old(self).blocked@.len() ==> !final(self).blocked@[i],
            final(self).tiles == old(self).tiles,
            final(self).width == old(self).width,
            final(self).height == old(self).height,
            final(self).revealed_tiles == old(self).revealed_tiles,
            final(self).visible_tiles == old(self).visible_tiles,
            final(self).depth == old(self).depth,
            final(self).bloodstains == old(self).bloodstains,
            final(self).view_blocked == old(self).view_blocked,
            final(self).name == old(self).name,
            final(self).outdoors == old(self).outdoors,
            final(self).tile_content == old(self).tile_content,
    {
        let n = self.blocked.len();
        let mut i: usize = 0;
        while i < n
            invariant
                i <= n,
                n == self.blocked@.len(),
                forall|j: int| 0 <= j < i ==> !self.blocked@[j],
                self.tiles == old(self).tiles,
                self.width == old(self).width,
                self.height == old(self).height,
                self.revealed_tiles == old(self).revealed_tiles,
                self.visible_tiles == old(self).visible_tiles,
                self.depth == old(self).depth,
                self.bloodstains == old(self).bloodstains,
                self.view_blocked == old(self).view_blocked,
                self.name == old(self).name,
                self.outdoors == old(self).outdoors,
                self.tile_content == old(self).tile_content,
                n == old(self).blocked@.len(),
            decreases n - i,
        {
            self.blocked.set(i, false);
            i = i + 1;
        }
        let m = self.tiles.len();
        let mut i: usize = 0;
        while i < m
            invariant
                i <= m,
                m == self.tiles@.len(),
                m <= n,
                n == self.blocked@.len(),
                forall|j: int| 0 <= j < i ==> self.blocked@[j] == !spec_tile_walkable(self.tiles@[j]),
                forall|j: int| i <= j < n ==> !self.blocked@[j],
                self.tiles == old(self).tiles,
                self.width == old(self).width,
                self.height == old(self).height,
                self.revealed_tiles == old(self).revealed_tiles,
                self.visible_tiles == old(self).visible_tiles,
                self.depth == old(self).depth,
                self.bloodstains == old(self).bloodstains,
                self.view_blocked == old(self).view_blocked,
                self.name == old(self).name,
                self.outdoors == old(self).outdoors,
                self.tile_content == old(self).tile_content,
                n == old(self).blocked@.len(),
            decreases m - i,
        {
            let walk = tile_walkable(self.tiles[i]);
            self.blocked.set(i, !walk);
            i = i + 1;
        }
    }

    /// Empties the list of entities standing on every tile.
    pub fn clear_content_index(&mut self)
        ensures
            final(self).tile_content@.len() == old(self).tile_content@.len(),
            forall|i: int|
                0 <= i < final(self).tile_content@.len() ==> final(self).tile_content@[i]@.len() == 0,
            final(self).tiles == old(self).tiles,
            final(self).width == old(self).width,
            final(self).height == old(self).height,
            final(self).revealed_tiles == old(self).revealed_tiles,
            final(self).visible_tiles == old(self).visible_tiles,
            final(self).blocked == old(self).blocked,
            final(self).depth == old(self).depth,
            final(self).bloodstains == old(self).bloodstains,
            final(self).view_blocked == old(self).view_blocked,
            final(self).name == old(self).name,
            final(self).outdoors == old(self).outdoors,
    {
        let n = self.tile_content.len();
        let mut i: usize = 0;
        while i < n
            invariant
                i <= n,
                n == self.tile_content@.len(),
                n == old(self).tile_content@.len(),
                forall|j: int| 0 <= j < i ==> self.tile_content@[j]@.len() == 0,
                self.tiles == old(self).tiles,
                self.width == old(self).width,
                self.height == old(self).height,
                self.revealed_tiles == old(self).revealed_tiles,
                self.visible_tiles == old(self).visible_tiles,
                self.blocked == old(self).blocked,
                self.depth == old(self).depth,
                self.bloodstains == old(self).bloodstains,
                self.view_blocked == old(self).view_blocked,
                self.name == old(self).name,
                self.outdoors == old(self).outdoors,
            decreases n - i,
        {
            self.tile_content.set(i, Vec::new());
            i = i + 1;
        }
    }

    /// Generates an empty map, consisting entirely of solid walls: nothing revealed,
    /// visible or blocked, no stains, no content, outdoors.
    pub fn new(new_depth: i32, width: i32, height: i32, name: &str) -> (m: GameMap)
        requires
            0 <= width * height <= i32::MAX,
        ensures
            m.is_blank(new_depth, width, height),
            m.name@ == name@,
            0 <= width && 0 <= height ==> m.wf(),
    {
        let count: usize = (width * height) as usize;
        let mut tiles: Vec<TileType> = Vec::new();
        let mut revealed_tiles: Vec<bool> = Vec::new();
        let mut visible_tiles: Vec<bool> = Vec::new();
        let mut blocked: Vec<bool> = Vec::new();
        let mut tile_content: Vec<Vec<EntityId>> = Vec::new();
        let mut i: usize = 0;
        while i < count
            invariant
                i <= count,
                count == width * height,
                tiles@ == Seq::new(i as nat, |j: int| TileType::Wall),
                revealed_tiles@ == Seq::new(i as nat, |j: int| false),
                visible_tiles@ == Seq::new(i as nat, |j: int| false),
                blocked@ == Seq::new(i as nat, |j: int| false),
                tile_content@.len() == i,
                forall|j: int| 0 <= j < i ==> tile_content@[j]@.len() == 0,
            decreases count - i,
        {
            tiles.push(TileType::Wall);
            revealed_tiles.push(false);
            visible_tiles.push(false);
            blocked.push(false);
            tile_content.push(Vec::new());
            i = i + 1;
        }
        GameMap {
            tiles,
            width,
            height,
            revealed_tiles,
            visible_tiles,
            blocked,
            tile_content,
            depth: new_depth,
            bloodstains: HashSet::new(),
            view_blocked: HashSet::new(),
            name: name.to_string(),
            outdoors: true,
        }
    }

    /// Whether the tile at `idx` blocks line of sight: tiles past the first that lie on
    /// the map block it when opaque or marked view-blocked; the first tile and indices
    /// off the map always block it.
    pub fn is_opaque(&self, idx: usize) -> (r: bool)
        ensures
            r == (if 0 < idx < self.tiles@.len() {
                spec_tile_opaque(self.tiles@[idx as int]) || self.view_blocked@.contains(idx)
            } else {
                true
            }),
    {
        if idx > 0 && idx < self.tiles.len() {
            tile_opaque(self.tiles[idx]) || self.view_blocked.contains(&idx)
        } else {
            true
        }
    }

    /// `(x, y)` holds a wall the player has seen.
    pub open spec fn spec_revealed_wall(&self, x: int, y: int) -> bool {
        let i = spec_xy_idx(self.width as int, x, y);
        self.tiles@[i] == TileType::Wall && self.revealed_tiles@[i]
    }

    /// Which of the four neighbours of `(x, y)` are revealed walls, as a bit mask
    /// (north 1, south 2, west 4, east 8).
    pub open spec fn spec_wall_mask(&self, x: int, y: int) -> int {
        (if self.spec_revealed_wall(x, y - 1) { 1int } else { 0int }) + (if self.spec_revealed_wall(
            x,
            y + 1,
        ) {
            2int
        } else {
            0int
        }) + (if self.spec_revealed_wall(x - 1, y) { 4int } else { 0int }) + (
        if self.spec_revealed_wall(x + 1, y) {
            8int
        } else {
            0int
        })
    }

    /// The glyph of a wall at `(x, y)`.
    pub open spec fn spec_wall_glyph(&self, x: int, y: int) -> u16 {
        if x < 1 || x > self.width - 2 || y < 1 || y > self.height - 2 {
            35
        } else {
            glyph_for_mask(self.spec_wall_mask(x, y))
        }
    }

    /// The tiles a creature on tile `idx` can move to, with whether the step is
    /// diagonal: west, east, north, south, then north-west, north-east, south-west,
    /// south-east, each present when it is a valid exit.
    pub open spec fn spec_available_exits(&self, idx: int) -> Seq<(usize, bool)> {
        let w = self.width as int;
        let x = idx % w;
        let y = idx / w;
        exit_if(self.spec_exit_valid(x - 1, y), spec_xy_idx(w, x - 1, y), false) + exit_if(
            self.spec_exit_valid(x + 1, y),
            spec_xy_idx(w, x + 1, y),
            false,
        ) + exit_if(self.spec_exit_valid(x, y - 1), spec_xy_idx(w, x, y - 1), false) + exit_if(
            self.spec_exit_valid(x, y + 1),
            spec_xy_idx(w, x, y + 1),
            false,
        ) + exit_if(self.spec_exit_valid(x - 1, y - 1), spec_xy_idx(w, x - 1, y - 1), true)
            + exit_if(self.spec_exit_valid(x + 1, y - 1), spec_xy_idx(w, x + 1, y - 1), true)
            + exit_if(self.spec_exit_valid(x - 1, y + 1), spec_xy_idx(w, x - 1, y + 1), true)
            + exit_if(self.spec_exit_valid(x + 1, y + 1), spec_xy_idx(w, x + 1, y + 1), true)
    }

    /// The cell drawn for the tile at `idx`: drawing walks the tiles in order placing
    /// tile `idx` at column `idx` of row 0.
    pub open spec fn spec_draw_cell(&self, idx: int) -> DrawCell {
        let t = self.tiles@[idx];
        DrawCell {
            x: idx as i32,
            y: 0,
            glyph: if t == TileType::Floor {
                cp437('.')
            } else if t == TileType::Wall {
                self.spec_wall_glyph(idx, 0)
            } else {
                cp437('>')
            },
            color: if t == TileType::Floor {
                TileColor::Floor
            } else if t == TileType::Wall {
                TileColor::Wall
            } else {
                TileColor::DownStairs
            },
            greyscale: !self.visible_tiles@[idx],
            stained: self.bloodstains@.contains(idx as usize) && self.visible_tiles@[idx],
        }
    }

    /// The cells drawn for the revealed tiles among the first `k`, in tile order.
    pub open spec fn spec_draw_plan(&self, k: int) -> Seq<DrawCell>
        decreases k,
    {
        if k <= 0 {
            Seq::empty()
        } else if self.revealed_tiles@[k - 1] {
            self.spec_draw_plan(k - 1).push(self.spec_draw_cell(k - 1))
        } else {
            self.spec_draw_plan(k - 1)
        }
    }

    /// Every revealed tile is one that can be drawn: floor, wall or stairs down.
    pub open spec fn drawable(&self) -> bool {
        forall|i: int|
            0 <= i < self.tiles@.len() && self.revealed_tiles@[i] ==> (self.tiles@[i]
                == TileType::Floor || self.tiles@[i] == TileType::Wall || self.tiles@[i]
                == TileType::DownStairs)
    }

    /// The map after `edge_border`: every tile on the outer ring of the grid is a wall,
    /// every other tile is as before.
    pub open spec fn bordered(&self, old_map: &GameMap) -> bool {
        &&& self.tiles@.len() == old_map.tiles@.len()
        &&& forall|x: int, y: int|
            #![trigger spec_xy_idx(self.width as int, x, y)]
            0 <= x < self.width && 0 <= y < self.height ==> self.tiles@[spec_xy_idx(
                self.width as int,
                x,
                y,
            )] == if x == 0 || x == self.width - 1 || y == 0 || y == self.height - 1 {
                TileType::Wall
            } else {
                old_map.tiles@[spec_xy_idx(self.width as int, x, y)]
            }
    }

    /// Appends the step onto `(nx, ny)` when it is a valid exit.
    fn push_exit(&self, exits: &mut Vec<(usize, bool)>, nx: i32, ny: i32, diagonal: bool)
        requires
            self.wf(),
        ensures
            final(exits)@ == old(exits)@ + exit_if(
                self.spec_exit_valid(nx as int, ny as int),
                spec_xy_idx(self.width as int, nx as int, ny as int),
                diagonal,
            ),
    {
        if self.is_exit_valid(nx, ny) {
            proof {
                lemma_idx_in_grid(self.width as int, self.height as int, nx as int, ny as int);
            }
            let dest = self.xy_idx(nx, ny);
            exits.push((dest, diagonal));
            assert(exits@ =~= old(exits)@ + exit_if(true, spec_xy_idx(self.width as int, nx as int, ny as int), diagonal));
        } else {
            assert(exits@ =~= old(exits)@ + exit_if(false, spec_xy_idx(self.width as int, nx as int, ny as int), diagonal));
        }
    }

    /// The tiles a creature on tile `idx` can move to, with whether each step is
    /// diagonal (path costs are weighed by the caller).
    pub fn available_exits(&self, idx: usize) -> (exits: Vec<(usize, bool)>)
        requires
            self.wf(),
            idx < self.tiles@.len(),
        ensures
            exits@ == self.spec_available_exits(idx as int),
            ({
                let w = self.width as int;
                let x = idx as int % w;
                let y = idx as int / w;
                &&& forall|k: int| 0 <= k < exits@.len() ==> is_neighbour_exit(self, x, y, #[trigger] exits@[k])
                &&& forall|dx: int, dy: int|
                    -1 <= dx <= 1 && -1 <= dy <= 1 && !(dx == 0 && dy == 0) && #[trigger] self.spec_exit_valid(x + dx, y + dy)
                        ==> exits@.contains((spec_xy_idx(w, x + dx, y + dy) as usize, dx != 0 && dy != 0))
            }),
    {
        proof {
            lemma_idx_to_xy(self.width as int, self.height as int, idx as int);
            law_exits_are_valid_neighbours(self, idx as int);
        }
        let w = self.width as usize;
        let x = (idx % w) as i32;
        let y = (idx / w) as i32;
        let mut exits: Vec<(usize, bool)> = Vec::new();
        self.push_exit(&mut exits, x - 1, y, false);
        self.push_exit(&mut exits, x + 1, y, false);
        self.push_exit(&mut exits, x, y - 1, false);
        self.push_exit(&mut exits, x, y + 1, false);
        self.push_exit(&mut exits, x - 1, y - 1, true);
        self.push_exit(&mut exits, x + 1, y - 1, true);
        self.push_exit(&mut exits, x - 1, y + 1, true);
        self.push_exit(&mut exits, x + 1, y + 1, true);
        assert(exits@ =~= self.spec_available_exits(idx as int));
        exits
    }

    /// A solid-wall level of the given depth and size: all walls, nothing revealed,
    /// visible or blocked, no stains, no content, outdoors.
    pub open spec fn is_blank(&self, depth: i32, width: i32, height: i32) -> bool {
        &&& self.width == width
        &&& self.height == height
        &&& self.depth == depth
        &&& self.outdoors
        &&& self.tiles@ == Seq::new((width * height) as nat, |i: int| TileType::Wall)
        &&& self.revealed_tiles@ == Seq::new((width * height) as nat, |i: int| false)
        &&& self.visible_tiles@ == Seq::new((width * height) as nat, |i: int| false)
        &&& self.blocked@ == Seq::new((width * height) as nat, |i: int| false)
        &&& self.tile_content@.len() == width * height
        &&& forall|i: int| 0 <= i < self.tile_content@.len() ==> self.tile_content@[i]@.len() == 0
        &&& self.bloodstains@ == Set::<usize>::empty()
        &&& self.view_blocked@ == Set::<usize>::empty()
    }

    /// This map is `other` with every tile revealed.
    pub open spec fn is_revealed_copy_of(&self, other: &GameMap) -> bool {
        &&& self.tiles@ == other.tiles@
        &&& self.width == other.width
        &&& self.height == other.height
        &&& self.revealed_tiles@ == Seq::new(other.revealed_tiles@.len(), |i: int| true)
        &&& self.visible_tiles@ == other.visible_tiles@
        &&& self.blocked@ == other.blocked@
        &&& self.depth == other.depth
        &&& self.bloodstains@ == other.bloodstains@
        &&& self.view_blocked@ == other.view_blocked@
        &&& self.name@ == other.name@
        &&& self.outdoors == other.outdoors
        &&& self.tile_content@.len() == other.tile_content@.len()
        &&& forall|i: int|
            0 <= i < other.tile_content@.len() ==> self.tile_content@[i]@ == other.tile_content@[i]@
    }

    /// The column and row of tile `idx` (for path distances and spawning).
    pub fn idx_xy(&self, idx: usize) -> (p: (usize, usize))
        requires
            self.width > 0,
        ensures
            p.0 == idx as int % self.width as int,
            p.1 == idx as int / self.width as int,
    {
        let w = self.width as usize;
        (idx % w, idx / w)
    }

    /// Index of the tile at `(x, y)` in the per-tile vectors: `y * width + x`, for any
    /// column and row whose index is a valid `usize`.
    pub fn xy_idx(&self, x: i32, y: i32) -> (idx: usize)
        requires
            0 <= self.width,
            0 <= spec_xy_idx(self.width as int, x as int, y as int) <= usize::MAX,
        ensures
            idx == spec_xy_idx(self.width as int, x as int, y as int),
    {
        let w = self.width as i64;
        let yy = y as i64;
        let xx = x as i64;
        assert(-0x8000_0000 * 0x7fff_ffff <= yy * w <= 0x7fff_ffff * 0x7fff_ffff) by (nonlinear_arith)
            requires
                -0x8000_0000 <= yy <= 0x7fff_ffff,
                0 <= w <= 0x7fff_ffff,
        ;
        let idx = yy * w + xx;
        idx as usize
    }
}

/// A grid cell strictly inside the border has an index below the tile count.
pub proof fn lemma_idx_in_grid(w: int, h: int, x: int, y: int)
    requires
        0 <= x < w,
        0 <= y < h,
    ensures
        0 <= spec_xy_idx(w, x, y) < w * h,
{
    assert(0 <= y * w + x < w * h) by (nonlinear_arith)
        requires
            0 <= x < w,
            0 <= y < h,
    ;
}

/// For a grid `w` wide and `h` high, every index below `w * h` splits into a column
/// `idx % w` and a row `idx / w` on the grid.
pub proof fn lemma_idx_to_xy(w: int, h: int, idx: int)
    requires
        0 <= idx < w * h,
        0 <= w,
        0 <= h,
    ensures
        0 < w,
        0 <= idx % w < w,
        0 <= idx / w < h,
        idx == spec_xy_idx(w, idx % w, idx / w),
{
    if w == 0 {
        assert(w * h == 0);
    }
    vstd::arithmetic::div_mod::lemma_fundamental_div_mod(idx, w);
    vstd::arithmetic::div_mod::lemma_mod_pos_bound(idx, w);
    let y = idx / w;
    assert(0 <= y) by {
        vstd::arithmetic::div_mod::lemma_div_pos_is_pos(idx, w);
    }
    assert(w * y == y * w) by (nonlinear_arith);
    assert(y < h) by (nonlinear_arith)
        requires
            idx == w * y + idx % w,
            0 <= idx % w,
            idx < w * h,
            0 < w,
    ;
}

/// Splitting the index of `(x, y)` gives back `x` and `y`.
pub proof fn lemma_xy_idx_split(w: int, x: int, y: int)
    requires
        0 <= x < w,
        0 <= y,
    ensures
        spec_xy_idx(w, x, y) % w == x,
        spec_xy_idx(w, x, y) / w == y,
{
    vstd::arithmetic::div_mod::lemma_fundamental_div_mod_converse(spec_xy_idx(w, x, y), w, y, x);
}

/// An exit from `(x, y)`: a valid exit one step away in each direction at most, and
/// marked diagonal exactly when both coordinates change.
pub open spec fn is_neighbour_exit(map: &GameMap, x: int, y: int, e: (usize, bool)) -> bool {
    let w = map.width as int;
    let ex = e.0 as int % w;
    let ey = e.0 as int / w;
    &&& map.spec_exit_valid(ex, ey)
    &&& e.0 as int == spec_xy_idx(w, ex, ey)
    &&& -1 <= ex - x <= 1
    &&& -1 <= ey - y <= 1
    &&& !(ex == x && ey == y)
    &&& e.1 == (ex != x && ey != y)
}

proof fn lemma_exit_piece(map: &GameMap, x: int, y: int, nx: int, ny: int, diagonal: bool)
    requires
        map.wf(),
        -1 <= nx - x <= 1,
        -1 <= ny - y <= 1,
        !(nx == x && ny == y),
        diagonal == (nx != x && ny != y),
    ensures
        forall|k: int|
            0 <= k < exit_if(map.spec_exit_valid(nx, ny), spec_xy_idx(map.width as int, nx, ny), diagonal).len()
                ==> is_neighbour_exit(map, x, y, #[trigger] exit_if(map.spec_exit_valid(nx, ny), spec_xy_idx(map.width as int, nx, ny), diagonal)[k]),
        map.spec_exit_valid(nx, ny) ==> exit_if(map.spec_exit_valid(nx, ny), spec_xy_idx(map.width as int, nx, ny), diagonal).contains(
            (spec_xy_idx(map.width as int, nx, ny) as usize, diagonal),
        ),
{
    if map.spec_exit_valid(nx, ny) {
        let w = map.width as int;
        let h = map.height as int;
        lemma_idx_in_grid(w, h, nx, ny);
        lemma_xy_idx_split(w, nx, ny);
        let piece = exit_if(true, spec_xy_idx(w, nx, ny), diagonal);
        assert(piece[0] == (spec_xy_idx(w, nx, ny) as usize, diagonal));
    }
}

proof fn lemma_exits_concat(map: &GameMap, x: int, y: int, a: Seq<(usize, bool)>, b: Seq<(usize, bool)>)
    requires
        forall|k: int| 0 <= k < a.len() ==> is_neighbour_exit(map, x, y, #[trigger] a[k]),
        forall|k: int| 0 <= k < b.len() ==> is_neighbour_exit(map, x, y, #[trigger] b[k]),
    ensures
        forall|k: int| 0 <= k < (a + b).len() ==> is_neighbour_exit(map, x, y, #[trigger] (a + b)[k]),
        forall|e: (usize, bool)| a.contains(e) || b.contains(e) ==> (a + b).contains(e),
{
    assert forall|k: int| 0 <= k < (a + b).len() implies is_neighbour_exit(map, x, y, #[trigger] (a + b)[k]) by {
        if k < a.len() {
            assert((a + b)[k] == a[k]);
        } else {
            assert((a + b)[k] == b[k - a.len()]);
        }
    }
    assert forall|e: (usize, bool)| a.contains(e) || b.contains(e) implies (a + b).contains(e) by {
        if a.contains(e) {
            let i = choose|i: int| 0 <= i < a.len() && a[i] == e;
            assert((a + b)[i] == e);
        } else {
            let i = choose|i: int| 0 <= i < b.len() && b[i] == e;
            assert((a + b)[a.len() + i] == e);
        }
    }
}

/// The exits of a tile are exactly its valid neighbours: every exit is a valid exit one
/// step away, marked diagonal exactly when the step is diagonal, and every valid
/// neighbour is listed with that mark.
pub proof fn law_exits_are_valid_neighbours(map: &GameMap, idx: int)
    requires
        map.wf(),
        0 <= idx < map.tiles@.len(),
    ensures
        ({
            let w = map.width as int;
            let x = idx % w;
            let y = idx / w;
            let exits = map.spec_available_exits(idx);
            &&& forall|k: int| 0 <= k < exits.len() ==> is_neighbour_exit(map, x, y, #[trigger] exits[k])
            &&& forall|dx: int, dy: int|
                -1 <= dx <= 1 && -1 <= dy <= 1 && !(dx == 0 && dy == 0) && #[trigger] map.spec_exit_valid(x + dx, y + dy)
                    ==> exits.contains((spec_xy_idx(w, x + dx, y + dy) as usize, dx != 0 && dy != 0))
        }),
{
    let w = map.width as int;
    let x = idx % w;
    let y = idx / w;
    lemma_idx_to_xy(w, map.height as int, idx);
    let p0 = exit_if(map.spec_exit_valid(x - 1, y), spec_xy_idx(w, x - 1, y), false);
    let p1 = exit_if(map.spec_exit_valid(x + 1, y), spec_xy_idx(w, x + 1, y), false);
    let p2 = exit_if(map.spec_exit_valid(x, y - 1), spec_xy_idx(w, x, y - 1), false);
    let p3 = exit_if(map.spec_exit_valid(x, y + 1), spec_xy_idx(w, x, y + 1), false);
    let p4 = exit_if(map.spec_exit_valid(x - 1, y - 1), spec_xy_idx(w, x - 1, y - 1), true);
    let p5 = exit_if(map.spec_exit_valid(x + 1, y - 1), spec_xy_idx(w, x + 1, y - 1), true);
    let p6 = exit_if(map.spec_exit_valid(x - 1, y + 1), spec_xy_idx(w, x - 1, y + 1), true);
    let p7 = exit_if(map.spec_exit_valid(x + 1, y + 1), spec_xy_idx(w, x + 1, y + 1), true);
    lemma_exit_piece(map, x, y, x - 1, y, false);
    lemma_exit_piece(map, x, y, x + 1, y, false);
    lemma_exit_piece(map, x, y, x, y - 1, false);
    lemma_exit_piece(map, x, y, x, y + 1, false);
    lemma_exit_piece(map, x, y, x - 1, y - 1, true);
    lemma_exit_piece(map, x, y, x + 1, y - 1, true);
    lemma_exit_piece(map, x, y, x - 1, y + 1, true);
    lemma_exit_piece(map, x, y, x + 1, y + 1, true);
    lemma_exits_concat(map, x, y, p0, p1);
    lemma_exits_concat(map, x, y, p0 + p1, p2);
    lemma_exits_concat(map, x, y, p0 + p1 + p2, p3);
    lemma_exits_concat(map, x, y, p0 + p1 + p2 + p3, p4);
    lemma_exits_concat(map, x, y, p0 + p1 + p2 + p3 + p4, p5);
    lemma_exits_concat(map, x, y, p0 + p1 + p2 + p3 + p4 + p5, p6);
    lemma_exits_concat(map, x, y, p0 + p1 + p2 + p3 + p4 + p5 + p6, p7);
    let exits = map.spec_available_exits(idx);
    assert(exits == p0 + p1 + p2 + p3 + p4 + p5 + p6 + p7);
    assert forall|dx: int, dy: int|
        -1 <= dx <= 1 && -1 <= dy <= 1 && !(dx == 0 && dy == 0) && #[trigger] map.spec_exit_valid(x + dx, y + dy)
            implies exits.contains((spec_xy_idx(w, x + dx, y + dy) as usize, dx != 0 && dy != 0)) by {
        if dx == -1 && dy == 0 {
            assert(p0.contains((spec_xy_idx(w, x + dx, y + dy) as usize, false)));
        } else if dx == 1 && dy == 0 {
            assert(p1.contains((spec_xy_idx(w, x + dx, y + dy) as usize, false)));
        } else if dx == 0 && dy == -1 {
            assert(p2.contains((spec_xy_idx(w, x + dx, y + dy) as usize, false)));
        } else if dx == 0 && dy == 1 {
            assert(p3.contains((spec_xy_idx(w, x + dx, y + dy) as usize, false)));
        } else if dx == -1 && dy == -1 {
            assert(p4.contains((spec_xy_idx(w, x + dx, y + dy) as usize, true)));
        } else if dx == 1 && dy == -1 {
            assert(p5.contains((spec_xy_idx(w, x + dx, y + dy) as usize, true)));
        } else if dx == -1 && dy == 1 {
            assert(p6.contains((spec_xy_idx(w, x + dx, y + dy) as usize, true)));
        } else {
            assert(p7.contains((spec_xy_idx(w, x + dx, y + dy) as usize, true)));
        }
    }
}

/// One exit, present when `ok` holds.
pub open spec fn exit_if(ok: bool, dest: int, diagonal: bool) -> Seq<(usize, bool)> {
    if ok {
        seq![(dest as usize, diagonal)]
    } else {
        Seq::empty()
    }
}

/// Glyph drawn for a wall whose revealed wall neighbours form `mask`
/// (north 1, south 2, west 4, east 8).
pub open spec fn glyph_for_mask(mask: int) -> u16 {
    if mask == 0 {
        9
    } else if mask == 1 || mask == 2 || mask == 3 {
        186
    } else if mask == 4 || mask == 8 || mask == 12 {
        205
    } else if mask == 5 {
        188
    } else if mask == 6 {
        187
    } else if mask == 7 {
        185
    } else if mask == 9 {
        200
    } else if mask == 10 {
        201
    } else if mask == 11 {
        204
    } else if mask == 13 {
        202
    } else if mask == 14 {
        203
    } else if mask == 15 {
        206
    } else {
        35
    }
}

/// Colour family of a drawn tile.
#[derive(Clone, Copy, Debug, PartialEq, Eq, Structural)]
pub enum TileColor {
    Floor,
    Wall,
    DownStairs,
}

/// One tile to draw: where, which glyph, in which colour family, whether the colour is
/// greyed out (the tile is remembered but not in view), and whether a bloodstain shows
/// behind it.
#[derive(Clone, Copy, Debug, PartialEq, Eq, Structural)]
pub struct DrawCell {
    pub x: i32,
    pub y: i32,
    pub glyph: u16,
    pub color: TileColor,
    pub greyscale: bool,
    pub stained: bool,
}

/// Number of tiles among the first `k` that count as walkable ground for map
/// acceptance: floor and down stairs.
pub open spec fn count_ground(tiles: Seq<TileType>, k: int) -> int
    decreases k,
{
    if k <= 0 {
        0
    } else {
        count_ground(tiles, k - 1) + (if tiles[k - 1] == TileType::Floor || tiles[k - 1]
            == TileType::DownStairs {
            1int
        } else {
            0int
        })
    }
}

proof fn lemma_count_ground_bounds(tiles: Seq<TileType>, k: int)
    requires
        0 <= k,
    ensures
        0 <= count_ground(tiles, k) <= k,
    decreases k,
{
    if k > 0 {
        lemma_count_ground_bounds(tiles, k - 1);
    }
}

/// Whether the tile at `(x, y)` is a wall the player has seen.
pub fn is_revealed_and_wall(map: &GameMap, x: i32, y: i32) -> (r: bool)
    requires
        map.wf(),
        map.in_bounds(x as int, y as int),
    ensures
        r == map.spec_revealed_wall(x as int, y as int),
{
    proof {
        lemma_idx_in_grid(map.width as int, map.height as int, x as int, y as int);
    }
    let idx = map.xy_idx(x, y);
    map.tiles[idx] == TileType::Wall && map.revealed_tiles[idx]
}

/// The glyph of the wall at `(x, y)`, joined to the revealed walls around it; `#` (35)
/// on the outer two rings of the map.
pub fn wall_glyph(map: &GameMap, x: i32, y: i32) -> (g: u16)
    requires
        map.wf(),
    ensures
        g == map.spec_wall_glyph(x as int, y as int),
        x < 1 || x > map.width - 2 || y < 1 || y > map.height - 2 ==> g == 35,
        ({
            let interior = 1 <= x <= map.width - 2 && 1 <= y <= map.height - 2;
            let n = map.spec_revealed_wall(x as int, y - 1);
            let s = map.spec_revealed_wall(x as int, y + 1);
            let w = map.spec_revealed_wall(x - 1, y as int);
            let e = map.spec_revealed_wall(x + 1, y as int);
            &&& interior && !n && !s && !w && !e ==> g == 9
            &&& interior && (n || s) && !w && !e ==> g == 186
            &&& interior && !n && !s && (w || e) ==> g == 205
            &&& interior && n && !s && w && !e ==> g == 188
            &&& interior && !n && s && w && !e ==> g == 187
            &&& interior && n && s && w && !e ==> g == 185
            &&& interior && n && !s && !w && e ==> g == 200
            &&& interior && !n && s && !w && e ==> g == 201
            &&& interior && n && s && !w && e ==> g == 204
            &&& interior && n && !s && w && e ==> g == 202
            &&& interior && !n && s && w && e ==> g == 203
            &&& interior && n && s && w && e ==> g == 206
        }),
{
    if x < 1 || x > map.width - 2 || y < 1 || y > map.height - 2 {
        return 35;
    }
    let mut mask: u8 = 0;
    if is_revealed_and_wall(map, x, y - 1) {
        mask += 1;
    }
    if is_revealed_and_wall(map, x, y + 1) {
        mask += 2;
    }
    if is_revealed_and_wall(map, x - 1, y) {
        mask += 4;
    }
    if is_revealed_and_wall(map, x + 1, y) {
        mask += 8;
    }
    assert(mask as int == map.spec_wall_mask(x as int, y as int));
    match mask {
        0 => 9,
        1 => 186,
        2 => 186,
        3 => 186,
        4 => 205,
        5 => 188,
        6 => 187,
        7 => 185,
        8 => 205,
        9 => 200,
        10 => 201,
        11 => 204,
        12 => 205,
        13 => 202,
        14 => 203,
        15 => 206,
        _ => 35,
    }
}

/// The map holds a staircase down.
pub open spec fn spec_has_down_stairs(map: &GameMap) -> bool {
    exists|i: int| 0 <= i < map.tile_count() && map.tiles@[i] == TileType::DownStairs
}

/// At least `min_percent` percent of the map's tiles are floor or stairs down, and the
/// map has tiles.
pub open spec fn spec_walkable(map: &GameMap, min_percent: i8) -> bool {
    map.tile_count() > 0 && count_ground(map.tiles@, map.tile_count()) * 100 >= min_percent * map.tile_count()
}

/// Raising the required share of walkable ground can only turn a map from walkable to
/// not walkable: a map walkable at `high` percent is walkable at any lower `low`.
pub proof fn law_walkable_monotone(map: &GameMap, low: i8, high: i8)
    requires
        low <= high,
        spec_walkable(map, high),
    ensures
        spec_walkable(map, low),
{
    let n = map.tile_count();
    assert(low * n <= high * n) by (nonlinear_arith)
        requires
            low <= high,
            n > 0,
    ;
}

/// Walling in the border twice gives the same tiles as doing it once.
pub proof fn law_edge_border_idempotent(m0: &GameMap, m1: &GameMap, m2: &GameMap)
    requires
        m0.wf(),
        m1.width == m0.width,
        m1.height == m0.height,
        m2.width == m1.width,
        m2.height == m1.height,
        m1.bordered(m0),
        m2.bordered(m1),
    ensures
        m2.tiles@ == m1.tiles@,
{
    let w = m0.width as int;
    let h = m0.height as int;
    assert forall|i: int| 0 <= i < m1.tiles@.len() implies m2.tiles@[i] == m1.tiles@[i] by {
        lemma_idx_to_xy(w, h, i);
        let x = i % w;
        let y = i / w;
        assert(spec_xy_idx(w, x, y) == i);
    }
    assert(m2.tiles@ =~= m1.tiles@);
}

/// Whether the map holds at least one staircase down.
pub fn stairs_present(map: &GameMap) -> (r: bool)
    requires
        map.wf(),
    ensures
        r == spec_has_down_stairs(map),
{
    let count = (map.width * map.height) as usize;
    let mut idx: usize = 0;
    while idx < count
        invariant
            idx <= count,
            count == map.tile_count(),
            map.wf(),
            forall|i: int| 0 <= i < idx ==> map.tiles@[i] != TileType::DownStairs,
        decreases count - idx,
    {
        if map.tiles[idx] == TileType::DownStairs {
            return true;
        }
        idx = idx + 1;
    }
    false
}

/// Whether at least `min_percent` percent of the map's tiles are floor or stairs down
/// (never for a map without tiles).
pub fn walkable(map: &GameMap, min_percent: i8) -> (r: bool)
    requires
        map.wf(),
    ensures
        r == spec_walkable(map, min_percent),
{
    let count = (map.width * map.height) as usize;
    let mut num_walkable: usize = 0;
    let mut idx: usize = 0;
    while idx < count
        invariant
            idx <= count,
            count == map.tile_count(),
            count <= i32::MAX,
            map.wf(),
            num_walkable == count_ground(map.tiles@, idx as int),
        decreases count - idx,
    {
        proof {
            lemma_count_ground_bounds(map.tiles@, idx as int);
        }
        match map.tiles[idx] {
            TileType::DownStairs | TileType::Floor => num_walkable += 1,
            _ => {},
        }
        idx = idx + 1;
    }
    proof {
        lemma_count_ground_bounds(map.tiles@, count as int);
        assert(-128 * (count as int) <= (min_percent as int) * (count as int) <= 127 * (count as int))
            by (nonlinear_arith)
            requires
                -128 <= min_percent <= 127,
                0 <= count,
        ;
    }
    count > 0 && (num_walkable as i64) * 100 >= (min_percent as i64) * (count as i64)
}

/// The cells drawn for the first `k` tiles: one for each revealed tile, in tile order,
/// placed at column `idx` of row 0, with the tile's own glyph and colour family, greyed
/// out when not in view and stained when a visible tile holds blood.
proof fn lemma_draw_plan_cells(map: &GameMap, k: int)
    requires
        0 <= k <= map.tiles@.len(),
        map.tiles@.len() <= i32::MAX,
        map.revealed_tiles@.len() == map.tiles@.len(),
    ensures
        forall|i: int| 0 <= i < map.spec_draw_plan(k).len() ==> {
            let c = #[trigger] map.spec_draw_plan(k)[i];
            let idx = c.x as int;
            &&& 0 <= idx < k
            &&& map.revealed_tiles@[idx]
            &&& c.y == 0
            &&& map.tiles@[idx] == TileType::Floor ==> c.color == TileColor::Floor && c.glyph == cp437('.')
            &&& map.tiles@[idx] == TileType::Wall ==> c.color == TileColor::Wall && c.glyph == map.spec_wall_glyph(idx, 0)
            &&& map.tiles@[idx] == TileType::DownStairs ==> c.color == TileColor::DownStairs && c.glyph == cp437('>')
            &&& c.greyscale == !map.visible_tiles@[idx]
            &&& c.stained == (map.bloodstains@.contains(idx as usize) && map.visible_tiles@[idx])
        },
        forall|i: int, j: int| 0 <= i < j < map.spec_draw_plan(k).len() ==> #[trigger] map.spec_draw_plan(k)[i].x < #[trigger] map.spec_draw_plan(k)[j].x,
        forall|idx: int| 0 <= idx < k && map.revealed_tiles@[idx] ==> exists|i: int|
            0 <= i < map.spec_draw_plan(k).len() && #[trigger] map.spec_draw_plan(k)[i].x == idx,
    decreases k,
{
    if k > 0 {
        lemma_draw_plan_cells(map, k - 1);
        let prev = map.spec_draw_plan(k - 1);
        let cur = map.spec_draw_plan(k);
        if map.revealed_tiles@[k - 1] {
            assert(cur == prev.push(map.spec_draw_cell(k - 1)));
            assert(cur[prev.len() as int].x == k - 1);
            assert forall|idx: int| 0 <= idx < k && map.revealed_tiles@[idx] implies exists|i: int|
                0 <= i < cur.len() && #[trigger] cur[i].x == idx by {
                if idx < k - 1 {
                    let i = choose|i: int| 0 <= i < prev.len() && #[trigger] prev[i].x == idx;
                    assert(cur[i] == prev[i]);
                } else {
                    assert(cur[prev.len() as int].x == idx);
                }
            }
        }
    }
}

/// The cells to draw for the revealed tiles of the map, in tile order; the caller
/// renders them, greying out tiles not in view.
pub fn draw_map(map: &GameMap) -> (plan: Vec<DrawCell>)
    requires
        map.wf(),
        map.drawable(),
    ensures
        plan@ == map.spec_draw_plan(map.tile_count()),
        forall|i: int| 0 <= i < plan@.len() ==> {
            let c = #[trigger] plan@[i];
            let idx = c.x as int;
            &&& 0 <= idx < map.tile_count()
            &&& map.revealed_tiles@[idx]
            &&& c.y == 0
            &&& map.tiles@[idx] == TileType::Floor ==> c.color == TileColor::Floor && c.glyph == cp437('.')
            &&& map.tiles@[idx] == TileType::Wall ==> c.color == TileColor::Wall && c.glyph == map.spec_wall_glyph(idx, 0)
            &&& map.tiles@[idx] == TileType::DownStairs ==> c.color == TileColor::DownStairs && c.glyph == cp437('>')
            &&& c.greyscale == !map.visible_tiles@[idx]
            &&& c.stained == (map.bloodstains@.contains(idx as usize) && map.visible_tiles@[idx])
        },
        forall|i: int, j: int| 0 <= i < j < plan@.len() ==> #[trigger] plan@[i].x < #[trigger] plan@[j].x,
        forall|idx: int| 0 <= idx < map.tile_count() && map.revealed_tiles@[idx] ==> exists|i: int|
            0 <= i < plan@.len() && #[trigger] plan@[i].x == idx,
{
    let mut plan: Vec<DrawCell> = Vec::new();
    let mut y: i32 = 0;
    let mut x: i32 = 0;
    let n = map.tiles.len();
    let last: i32 = (map.width * map.height) - 1;
    let mut idx: usize = 0;
    while idx < n
        invariant
            map.wf(),
            map.drawable(),
            n == map.tile_count(),
            last == map.tile_count() - 1,
            idx <= n,
            idx < n ==> x == idx && y == 0,
            plan@ == map.spec_draw_plan(idx as int),
        decreases n - idx,
    {
        if map.revealed_tiles[idx] {
            let tile = map.tiles[idx];
            let glyph: u16;
            let color: TileColor;
            match tile {
                TileType::Floor => {
                    glyph = to_cp437('.');
                    color = TileColor::Floor;
                },
                TileType::Wall => {
                    glyph = wall_glyph(map, x, y);
                    color = TileColor::Wall;
                },
                _ => {
                    glyph = to_cp437('>');
                    color = TileColor::DownStairs;
                },
            }
            let visible = map.visible_tiles[idx];
            let stained = map.bloodstains.contains(&idx) && visible;
            plan.push(DrawCell { x, y, glyph, color, greyscale: !visible, stained });
        }
        x = x + 1;
        if x > last {
            x = 0;
            y = y + 1;
        }
        idx = idx + 1;
    }
    proof {
        lemma_draw_plan_cells(map, map.tile_count());
    }
    plan
}

/// Turns every tile on the outer ring of the map into a wall.
pub fn edge_border(map: &mut GameMap)
    requires
        old(map).wf(),
        (old(map).width == 0) == (old(map).height == 0),
    ensures
        final(map).wf(),
        final(map).bordered(old(map)),
        final(map).width == old(map).width,
        final(map).height == old(map).height,
        final(map).revealed_tiles == old(map).revealed_tiles,
        final(map).visible_tiles == old(map).visible_tiles,
        final(map).blocked == old(map).blocked,
        final(map).depth == old(map).depth,
        final(map).bloodstains == old(map).bloodstains,
        final(map).view_blocked == old(map).view_blocked,
        final(map).name == old(map).name,
        final(map).outdoors == old(map).outdoors,
        final(map).tile_content == old(map).tile_content,
{
    let width = map.width;
    let height = map.height;
    let ghost w = width as int;
    let ghost h = height as int;
    let mut x: i32 = 0;
    while x < width
        invariant
            0 <= x <= width,
            width == map.width,
            height == map.height,
            w == width,
            h == height,
            width > 0 ==> height > 0,
            map.wf(),
            map.tiles@.len() == old(map).tiles@.len(),
            forall|a: int, b: int|
                #![trigger spec_xy_idx(w, a, b)]
                0 <= a < w && 0 <= b < h ==> map.tiles@[spec_xy_idx(w, a, b)] == if (a < x && (b
                    == 0 || b == h - 1)) {
                    TileType::Wall
                } else {
                    old(map).tiles@[spec_xy_idx(w, a, b)]
                },
            map.revealed_tiles == old(map).revealed_tiles,
            map.visible_tiles == old(map).visible_tiles,
            map.blocked == old(map).blocked,
            map.depth == old(map).depth,
            map.bloodstains == old(map).bloodstains,
            map.view_blocked == old(map).view_blocked,
            map.name == old(map).name,
            map.outdoors == old(map).outdoors,
            map.tile_content == old(map).tile_content,
        decreases width - x,
    {
        proof {
            lemma_idx_in_grid(w, h, x as int, 0);
            lemma_idx_in_grid(w, h, x as int, h - 1);
            lemma_cells_distinct(w, h);
        }
        let top_idx = map.xy_idx(x, 0);
        let bottom_idx = map.xy_idx(x, height - 1);
        map.tiles.set(top_idx, TileType::Wall);
        map.tiles.set(bottom_idx, TileType::Wall);
        x = x + 1;
    }
    let mut y: i32 = 0;
    while y < height
        invariant
            0 <= y <= height,
            width == map.width,
            height == map.height,
            w == width,
            h == height,
            height > 0 ==> width > 0,
            map.wf(),
            map.tiles@.len() == old(map).tiles@.len(),
            forall|a: int, b: int|
                #![trigger spec_xy_idx(w, a, b)]
                0 <= a < w && 0 <= b < h ==> map.tiles@[spec_xy_idx(w, a, b)] == if (b == 0 || b
                    == h - 1 || (b < y && (a == 0 || a == w - 1))) {
                    TileType::Wall
                } else {
                    old(map).tiles@[spec_xy_idx(w, a, b)]
                },
            map.revealed_tiles == old(map).revealed_tiles,
            map.visible_tiles == old(map).visible_tiles,
            map.blocked == old(map).blocked,
            map.depth == old(map).depth,
            map.bloodstains == old(map).bloodstains,
            map.view_blocked == old(map).view_blocked,
            map.name == old(map).name,
            map.outdoors == old(map).outdoors,
            map.tile_content == old(map).tile_content,
        decreases height - y,
    {
        proof {
            lemma_idx_in_grid(w, h, 0, y as int);
            lemma_idx_in_grid(w, h, w - 1, y as int);
            lemma_cells_distinct(w, h);
        }
        let left_idx = map.xy_idx(0, y);
        let right_idx = map.xy_idx(width - 1, y);
        map.tiles.set(left_idx, TileType::Wall);
        map.tiles.set(right_idx, TileType::Wall);
        y = y + 1;
    }
}

/// Cells of a grid have indices on the grid, and distinct cells have distinct indices.
pub proof fn lemma_cells_distinct(w: int, h: int)
    requires
        0 <= w,
    ensures
        forall|a: int, b: int|
            #![trigger spec_xy_idx(w, a, b)]
            0 <= a < w && 0 <= b < h ==> 0 <= spec_xy_idx(w, a, b) < w * h,
        forall|a1: int, b1: int, a2: int, b2: int|
            #![trigger spec_xy_idx(w, a1, b1), spec_xy_idx(w, a2, b2)]
            0 <= a1 < w && 0 <= b1 && 0 <= a2 < w && 0 <= b2 && (a1 != a2 || b1 != b2)
                ==> spec_xy_idx(w, a1, b1) != spec_xy_idx(w, a2, b2),
{
    assert forall|a1: int, b1: int, a2: int, b2: int|
        #![trigger spec_xy_idx(w, a1, b1), spec_xy_idx(w, a2, b2)]
        0 <= a1 < w && 0 <= b1 && 0 <= a2 < w && 0 <= b2 && (a1 != a2 || b1 != b2)
            implies spec_xy_idx(w, a1, b1) != spec_xy_idx(w, a2, b2) by {
        lemma_xy_idx_split(w, a1, b1);
        lemma_xy_idx_split(w, a2, b2);
    }
    assert forall|a: int, b: int|
        #![trigger spec_xy_idx(w, a, b)]
        0 <= a < w && 0 <= b < h implies 0 <= spec_xy_idx(w, a, b) < w * h by {
        lemma_idx_in_grid(w, h, a, b);
    }
}

/// Reveals every tile of row `row` (the magic-mapping effect, one row per frame).
pub fn reveal_row(map: &mut GameMap, row: i32)
    requires
        old(map).wf(),
        old(map).width > 0 ==> 0 <= row < old(map).height,
    ensures
        final(map).wf(),
        final(map).revealed_tiles@.len() == old(map).revealed_tiles@.len(),
        forall|x: int, y: int|
            #![trigger spec_xy_idx(old(map).width as int, x, y)]
            0 <= x < old(map).width && 0 <= y < old(map).height ==> final(map).revealed_tiles@[spec_xy_idx(
                old(map).width as int,
                x,
                y,
            )] == (y == row || old(map).revealed_tiles@[spec_xy_idx(old(map).width as int, x, y)]),
        final(map).tiles == old(map).tiles,
        final(map).width == old(map).width,
        final(map).height == old(map).height,
        final(map).visible_tiles == old(map).visible_tiles,
        final(map).blocked == old(map).blocked,
        final(map).depth == old(map).depth,
        final(map).bloodstains == old(map).bloodstains,
        final(map).view_blocked == old(map).view_blocked,
        final(map).name == old(map).name,
        final(map).outdoors == old(map).outdoors,
        final(map).tile_content == old(map).tile_content,
{
    let ghost w = map.width as int;
    let ghost h = map.height as int;
    let mut x: i32 = 0;
    while x < map.width
        invariant
            0 <= x,
            w == map.width,
            h == map.height,
            w > 0 ==> 0 <= row < h,
            x <= w,
            map.wf(),
            map.revealed_tiles@.len() == old(map).revealed_tiles@.len(),
            forall|a: int, b: int|
                #![trigger spec_xy_idx(w, a, b)]
                0 <= a < w && 0 <= b < h ==> map.revealed_tiles@[spec_xy_idx(w, a, b)] == ((b == row
                    && a < x) || old(map).revealed_tiles@[spec_xy_idx(w, a, b)]),
            map.tiles == old(map).tiles,
            map.visible_tiles == old(map).visible_tiles,
            map.blocked == old(map).blocked,
            map.depth == old(map).depth,
            map.bloodstains == old(map).bloodstains,
            map.view_blocked == old(map).view_blocked,
            map.name == old(map).name,
            map.outdoors == old(map).outdoors,
            map.tile_content == old(map).tile_content,
        decreases w - x,
    {
        proof {
            lemma_idx_in_grid(w, h, x as int, row as int);
            lemma_cells_distinct(w, h);
        }
        let idx = map.xy_idx(x, row);
        map.revealed_tiles.set(idx, true);
        x = x + 1;
    }
}

/// A fresh set holding the same indices.
fn copy_index_set(s: &HashSet<usize>) -> (r: HashSet<usize>)
    ensures
        r@ == s@,
{
    let mut r: HashSet<usize> = HashSet::new();
    for k in it: s.iter()
        invariant
            it.seq().unref().to_set() == s@,
            r@ == it.seq().take(it.index()).unref().to_set(),
            it.index() == it.seq().len() ==> r@ == s@,
    {
        proof {
            let prev = it.seq().take(it.index()).unref();
            let next = it.seq().take(it.index() + 1).unref();
            assert(next =~= prev.push(*k));
            prev.lemma_push_to_set_commute(*k);
        }
        r.insert(*k);
        assert(it.index() + 1 == it.seq().len() ==> it.seq().take(it.index() + 1) =~= it.seq());
    }
    r
}

/// A fresh vector holding the same elements.
fn copy_vec<T: Copy>(v: &Vec<T>) -> (r: Vec<T>)
    ensures
        r@ == v@,
{
    let mut r: Vec<T> = Vec::new();
    let mut i: usize = 0;
    while i < v.len()
        invariant
            i <= v@.len(),
            r@ == v@.take(i as int),
        decreases v@.len() - i,
    {
        r.push(v[i]);
        i = i + 1;
        assert(r@ =~= v@.take(i as int));
    }
    assert(v@.take(i as int) =~= v@);
    r
}

/// A copy of the map in which every tile is revealed.
pub fn revealed_copy(map: &GameMap) -> (m: GameMap)
    ensures
        m.is_revealed_copy_of(map),
        map.wf() ==> m.wf(),
{
    let mut revealed: Vec<bool> = Vec::new();
    let mut i: usize = 0;
    while i < map.revealed_tiles.len()
        invariant
            i <= map.revealed_tiles@.len(),
            revealed@ == Seq::new(i as nat, |j: int| true),
        decreases map.revealed_tiles@.len() - i,
    {
        revealed.push(true);
        i = i + 1;
        assert(revealed@ =~= Seq::new(i as nat, |j: int| true));
    }
    let mut content: Vec<Vec<EntityId>> = Vec::new();
    let mut i: usize = 0;
    while i < map.tile_content.len()
        invariant
            i <= map.tile_content@.len(),
            content@.len() == i,
            forall|j: int| 0 <= j < i ==> content@[j]@ == map.tile_content@[j]@,
        decreases map.tile_content@.len() - i,
    {
        content.push(copy_vec(&map.tile_content[i]));
        i = i + 1;
    }
    GameMap {
        tiles: copy_vec(&map.tiles),
        width: map.width,
        height: map.height,
        revealed_tiles: revealed,
        visible_tiles: copy_vec(&map.visible_tiles),
        blocked: copy_vec(&map.blocked),
        depth: map.depth,
        bloodstains: copy_index_set(&map.bloodstains),
        view_blocked: copy_index_set(&map.view_blocked),
        name: map.name.clone(),
        outdoors: map.outdoors,
        tile_content: content,
    }
}

} // verus!
