use vstd::prelude::*;
use std::collections::HashSet;
use rltk::RandomNumberGenerator;
use crate::components::{Position, Rect};
use crate::entity::EntityId;
use crate::map::{GameMap, edge_border, revealed_copy};
use crate::rng::roll_dice;
use crate::spawner::spawn_entity;
use crate::tiles::spec_tile_walkable;

verus! {

broadcast use vstd::std_specs::hash::group_hash_axioms;

/// Horizontal anchor of an area starting position.
#[derive(Clone, Copy, Debug, PartialEq, Eq, Structural)]
pub enum XStart {
    LEFT,
    CENTER,
    RIGHT,
}

/// Vertical anchor of an area starting position.
#[derive(Clone, Copy, Debug, PartialEq, Eq, Structural)]
pub enum YStart {
    TOP,
    CENTER,
    BOTTOM,
}

/// Order in which a room sorter arranges the rooms.
#[derive(Clone, Copy, Debug, PartialEq, Eq, Structural)]
pub enum RoomSort {
    LEFTMOST,
    RIGHTMOST,
    TOPMOST,
    BOTTOMMOST,
    CENTRAL,
}

/// Variants of the drunkard's-walk cave builder.
#[derive(Clone, Copy, Debug, PartialEq, Eq, Structural)]
pub enum DrunkardStyle {
    OpenArea,
    OpenHalls,
    WindingPassages,
    FatPassages,
    FearfulSymmetry,
}

/// Variants of the diffusion-limited-aggregation builder.
#[derive(Clone, Copy, Debug, PartialEq, Eq, Structural)]
pub enum DlaStyle {
    WalkInwards,
    WalkOutwards,
    CentralAttractor,
    Insectoid,
}

/// Distance measure of the Voronoi cell builder.
#[derive(Clone, Copy, Debug, PartialEq, Eq, Structural)]
pub enum VoronoiDistance {
    Pythagoras,
    Manhattan,
}

/// Hand-made map pieces a prefab builder can stamp.
#[derive(Clone, Copy, Debug, PartialEq, Eq, Structural)]
pub enum PrefabPiece {
    WfcPopulated,
    UndergroundFort,
    UndergroundFountain,
}

/// One stage of a map-building chain: an initial builder that lays out a level, or a
/// meta builder that reworks the level built so far.
#[derive(Clone, Copy, Debug, PartialEq, Eq, Structural)]
pub enum BuilderKind {
    SimpleMap,
    BspDungeon,
    BspInterior,
    CellularAutomata,
    DrunkardsWalk(DrunkardStyle),
    Maze,
    Dla(DlaStyle),
    VoronoiCells(VoronoiDistance),
    PrefabConstant(PrefabPiece),
    PrefabSectional(PrefabPiece),
    PrefabVaults,
    RoomSorter(RoomSort),
    RoomDrawer,
    DoglegCorridors,
    NearestCorridors,
    StraightLineCorridors,
    BspCorridors,
    CorridorSpawner,
    RoomExploder,
    RoomCornerRounder,
    RoomBasedStartingPosition,
    AreaStartingPosition(XStart, YStart),
    RoomBasedStairs,
    DistantExit,
    RoomBasedSpawner,
    VoronoiSpawning,
    CullUnreachable,
    DoorPlacement,
    EdgeBorder,
    WaveformCollapse,
}

/// Horizontal start for a roll of a three-sided die.
pub open spec fn spec_x_start(roll: int) -> XStart {
    if roll == 1 {
        XStart::LEFT
    } else if roll == 2 {
        XStart::CENTER
    } else {
        XStart::RIGHT
    }
}

/// Vertical start for a roll of a three-sided die.
pub open spec fn spec_y_start(roll: int) -> YStart {
    if roll == 1 {
        YStart::BOTTOM
    } else if roll == 2 {
        YStart::CENTER
    } else {
        YStart::TOP
    }
}

/// Initial room builder for a roll of a three-sided die.
pub open spec fn spec_room_starter(roll: int) -> BuilderKind {
    if roll == 1 {
        BuilderKind::SimpleMap
    } else if roll == 2 {
        BuilderKind::BspDungeon
    } else {
        BuilderKind::BspInterior
    }
}

/// Room sorter for a roll of a five-sided die.
pub open spec fn spec_room_sorter(roll: int) -> BuilderKind {
    BuilderKind::RoomSorter(
        if roll == 1 {
            RoomSort::LEFTMOST
        } else if roll == 2 {
            RoomSort::RIGHTMOST
        } else if roll == 3 {
            RoomSort::TOPMOST
        } else if roll == 4 {
            RoomSort::BOTTOMMOST
        } else {
            RoomSort::CENTRAL
        },
    )
}

/// Corridor builder for a roll of a four-sided die.
pub open spec fn spec_corridors(roll: int) -> BuilderKind {
    if roll == 1 {
        BuilderKind::DoglegCorridors
    } else if roll == 2 {
        BuilderKind::NearestCorridors
    } else if roll == 3 {
        BuilderKind::StraightLineCorridors
    } else {
        BuilderKind::BspCorridors
    }
}

/// Room modifier for a roll of a six-sided die: rolls of 3 and up add none.
pub open spec fn spec_room_modifier(roll: int) -> Seq<BuilderKind> {
    if roll == 1 {
        seq![BuilderKind::RoomExploder]
    } else if roll == 2 {
        seq![BuilderKind::RoomCornerRounder]
    } else {
        Seq::empty()
    }
}

/// Initial cave-like builder for a roll of a sixteen-sided die.
pub open spec fn spec_shape_starter(roll: int) -> BuilderKind {
    if roll == 1 {
        BuilderKind::CellularAutomata
    } else if roll == 2 {
        BuilderKind::DrunkardsWalk(DrunkardStyle::OpenArea)
    } else if roll == 3 {
        BuilderKind::DrunkardsWalk(DrunkardStyle::OpenHalls)
    } else if roll == 4 {
        BuilderKind::DrunkardsWalk(DrunkardStyle::WindingPassages)
    } else if roll == 5 {
        BuilderKind::DrunkardsWalk(DrunkardStyle::FatPassages)
    } else if roll == 6 {
        BuilderKind::DrunkardsWalk(DrunkardStyle::FearfulSymmetry)
    } else if roll == 7 {
        BuilderKind::Maze
    } else if roll == 8 {
        BuilderKind::Dla(DlaStyle::WalkInwards)
    } else if roll == 9 {
        BuilderKind::Dla(DlaStyle::WalkOutwards)
    } else if roll == 10 {
        BuilderKind::Dla(DlaStyle::CentralAttractor)
    } else if roll == 11 {
        BuilderKind::Dla(DlaStyle::Insectoid)
    } else if roll == 12 {
        BuilderKind::VoronoiCells(VoronoiDistance::Pythagoras)
    } else if roll == 13 {
        BuilderKind::VoronoiCells(VoronoiDistance::Manhattan)
    } else {
        BuilderKind::PrefabConstant(PrefabPiece::WfcPopulated)
    }
}

/// The horizontal start anchor chosen by a roll of a three-sided die.
pub fn x_start_for(roll: i32) -> (x: XStart)
    ensures
        x == spec_x_start(roll as int),
        roll == 1 ==> x == XStart::LEFT,
        roll == 2 ==> x == XStart::CENTER,
        roll != 1 && roll != 2 ==> x == XStart::RIGHT,
{
    match roll {
        1 => XStart::LEFT,
        2 => XStart::CENTER,
        _ => XStart::RIGHT,
    }
}

/// The vertical start anchor chosen by a roll of a three-sided die.
pub fn y_start_for(roll: i32) -> (y: YStart)
    ensures
        y == spec_y_start(roll as int),
        roll == 1 ==> y == YStart::BOTTOM,
        roll == 2 ==> y == YStart::CENTER,
        roll != 1 && roll != 2 ==> y == YStart::TOP,
{
    match roll {
        1 => YStart::BOTTOM,
        2 => YStart::CENTER,
        _ => YStart::TOP,
    }
}

/// The initial room builder chosen by a roll of a three-sided die.
pub fn room_starter_for(roll: i32) -> (b: BuilderKind)
    ensures
        b == spec_room_starter(roll as int),
        roll == 1 ==> b == BuilderKind::SimpleMap,
        roll == 2 ==> b == BuilderKind::BspDungeon,
        roll != 1 && roll != 2 ==> b == BuilderKind::BspInterior,
{
    match roll {
        1 => BuilderKind::SimpleMap,
        2 => BuilderKind::BspDungeon,
        _ => BuilderKind::BspInterior,
    }
}

/// The room sorter chosen by a roll of a five-sided die.
pub fn room_sorter_for(roll: i32) -> (b: BuilderKind)
    ensures
        b == spec_room_sorter(roll as int),
        roll == 1 ==> b == BuilderKind::RoomSorter(RoomSort::LEFTMOST),
        roll == 2 ==> b == BuilderKind::RoomSorter(RoomSort::RIGHTMOST),
        roll == 3 ==> b == BuilderKind::RoomSorter(RoomSort::TOPMOST),
        roll == 4 ==> b == BuilderKind::RoomSorter(RoomSort::BOTTOMMOST),
        roll < 1 || roll > 4 ==> b == BuilderKind::RoomSorter(RoomSort::CENTRAL),
{
    match roll {
        1 => BuilderKind::RoomSorter(RoomSort::LEFTMOST),
        2 => BuilderKind::RoomSorter(RoomSort::RIGHTMOST),
        3 => BuilderKind::RoomSorter(RoomSort::TOPMOST),
        4 => BuilderKind::RoomSorter(RoomSort::BOTTOMMOST),
        _ => BuilderKind::RoomSorter(RoomSort::CENTRAL),
    }
}

/// The corridor builder chosen by a roll of a four-sided die.
pub fn corridors_for(roll: i32) -> (b: BuilderKind)
    ensures
        b == spec_corridors(roll as int),
        roll == 1 ==> b == BuilderKind::DoglegCorridors,
        roll == 2 ==> b == BuilderKind::NearestCorridors,
        roll == 3 ==> b == BuilderKind::StraightLineCorridors,
        roll < 1 || roll > 3 ==> b == BuilderKind::BspCorridors,
{
    match roll {
        1 => BuilderKind::DoglegCorridors,
        2 => BuilderKind::NearestCorridors,
        3 => BuilderKind::StraightLineCorridors,
        _ => BuilderKind::BspCorridors,
    }
}

/// The initial cave-like builder chosen by a roll of a sixteen-sided die.
pub fn shape_starter_for(roll: i32) -> (b: BuilderKind)
    ensures
        b == spec_shape_starter(roll as int),
        roll == 1 ==> b == BuilderKind::CellularAutomata,
        roll == 2 ==> b == BuilderKind::DrunkardsWalk(DrunkardStyle::OpenArea),
        roll == 3 ==> b == BuilderKind::DrunkardsWalk(DrunkardStyle::OpenHalls),
        roll == 4 ==> b == BuilderKind::DrunkardsWalk(DrunkardStyle::WindingPassages),
        roll == 5 ==> b == BuilderKind::DrunkardsWalk(DrunkardStyle::FatPassages),
        roll == 6 ==> b == BuilderKind::DrunkardsWalk(DrunkardStyle::FearfulSymmetry),
        roll == 7 ==> b == BuilderKind::Maze,
        roll == 8 ==> b == BuilderKind::Dla(DlaStyle::WalkInwards),
        roll == 9 ==> b == BuilderKind::Dla(DlaStyle::WalkOutwards),
        roll == 10 ==> b == BuilderKind::Dla(DlaStyle::CentralAttractor),
        roll == 11 ==> b == BuilderKind::Dla(DlaStyle::Insectoid),
        roll == 12 ==> b == BuilderKind::VoronoiCells(VoronoiDistance::Pythagoras),
        roll == 13 ==> b == BuilderKind::VoronoiCells(VoronoiDistance::Manhattan),
        roll < 1 || roll > 13 ==> b == BuilderKind::PrefabConstant(PrefabPiece::WfcPopulated),
{
    match roll {
        1 => BuilderKind::CellularAutomata,
        2 => BuilderKind::DrunkardsWalk(DrunkardStyle::OpenArea),
        3 => BuilderKind::DrunkardsWalk(DrunkardStyle::OpenHalls),
        4 => BuilderKind::DrunkardsWalk(DrunkardStyle::WindingPassages),
        5 => BuilderKind::DrunkardsWalk(DrunkardStyle::FatPassages),
        6 => BuilderKind::DrunkardsWalk(DrunkardStyle::FearfulSymmetry),
        7 => BuilderKind::Maze,
        8 => BuilderKind::Dla(DlaStyle::WalkInwards),
        9 => BuilderKind::Dla(DlaStyle::WalkOutwards),
        10 => BuilderKind::Dla(DlaStyle::CentralAttractor),
        11 => BuilderKind::Dla(DlaStyle::Insectoid),
        12 => BuilderKind::VoronoiCells(VoronoiDistance::Pythagoras),
        13 => BuilderKind::VoronoiCells(VoronoiDistance::Manhattan),
        _ => BuilderKind::PrefabConstant(PrefabPiece::WfcPopulated),
    }
}

/// A room builder choice that places the player: in the first room, or in an area.
pub open spec fn is_start_choice(b: BuilderKind) -> bool {
    b == BuilderKind::RoomBasedStartingPosition || b is AreaStartingPosition
}

/// A stairs-placement choice.
pub open spec fn is_exit_choice(b: BuilderKind) -> bool {
    b == BuilderKind::RoomBasedStairs || b == BuilderKind::DistantExit
}

/// A monster-spawning choice.
pub open spec fn is_spawn_choice(b: BuilderKind) -> bool {
    b == BuilderKind::RoomBasedSpawner || b == BuilderKind::VoronoiSpawning
}

/// A corridor builder.
pub open spec fn is_corridor_builder(b: BuilderKind) -> bool {
    b == BuilderKind::DoglegCorridors || b == BuilderKind::NearestCorridors || b
        == BuilderKind::StraightLineCorridors || b == BuilderKind::BspCorridors
}

/// The room layout stages: a sorter, the room drawer, corridors, optionally a corridor
/// spawner, and optionally one room modifier.
pub open spec fn is_room_layout(s: Seq<BuilderKind>) -> bool {
    &&& s.len() >= 3
    &&& s[0] is RoomSorter
    &&& s[1] == BuilderKind::RoomDrawer
    &&& is_corridor_builder(s[2])
    &&& {
        let rest = s.skip(3);
        ||| rest == Seq::<BuilderKind>::empty()
        ||| rest == seq![BuilderKind::CorridorSpawner]
        ||| rest == seq![BuilderKind::RoomExploder]
        ||| rest == seq![BuilderKind::RoomCornerRounder]
        ||| rest == seq![BuilderKind::CorridorSpawner, BuilderKind::RoomExploder]
        ||| rest == seq![BuilderKind::CorridorSpawner, BuilderKind::RoomCornerRounder]
    }
}

/// A room-based level recipe: a room starter, the room layout stages unless the
/// starter is the BSP interior builder, then start, exit and spawn choices.
pub open spec fn is_room_recipe(starter: BuilderKind, steps: Seq<BuilderKind>) -> bool {
    let n = steps.len();
    &&& n >= 3
    &&& is_start_choice(steps[n - 3])
    &&& is_exit_choice(steps[n - 2])
    &&& is_spawn_choice(steps[n - 1])
    &&& if starter == BuilderKind::BspInterior {
        n == 3
    } else {
        (starter == BuilderKind::SimpleMap || starter == BuilderKind::BspDungeon) && is_room_layout(
            steps.take(n - 3),
        )
    }
}

/// An initial builder for cave-like levels.
pub open spec fn is_shape_starter(b: BuilderKind) -> bool {
    ||| b == BuilderKind::CellularAutomata
    ||| b is DrunkardsWalk
    ||| b == BuilderKind::Maze
    ||| b is Dla
    ||| b is VoronoiCells
    ||| b == BuilderKind::PrefabConstant(PrefabPiece::WfcPopulated)
}

/// A cave-like level recipe: start at the centre, cull what cannot be reached from
/// there, choose a start area, spawn monsters, and place the exit far away.
pub open spec fn is_shape_recipe(starter: BuilderKind, steps: Seq<BuilderKind>) -> bool {
    &&& is_shape_starter(starter)
    &&& steps.len() == 5
    &&& steps[0] == BuilderKind::AreaStartingPosition(XStart::CENTER, YStart::CENTER)
    &&& steps[1] == BuilderKind::CullUnreachable
    &&& steps[2] is AreaStartingPosition
    &&& steps[3] == BuilderKind::VoronoiSpawning
    &&& steps[4] == BuilderKind::DistantExit
}

/// `s` when `b`, else nothing.
pub open spec fn stages_if(b: bool, s: Seq<BuilderKind>) -> Seq<BuilderKind> {
    if b {
        s
    } else {
        Seq::empty()
    }
}

/// The stages every random level ends with: an optional cellular pass with its own
/// spawning, an optional fort, an optional fountain, doors, optional vaults, the
/// edge border and a final cull.
pub open spec fn builder_tail(cellular: bool, fort: bool, fountain: bool, vaults: bool) -> Seq<
    BuilderKind,
> {
    stages_if(cellular, seq![BuilderKind::CellularAutomata, BuilderKind::VoronoiSpawning])
        + stages_if(fort, seq![BuilderKind::PrefabSectional(PrefabPiece::UndergroundFort)])
        + stages_if(fountain, seq![BuilderKind::PrefabSectional(PrefabPiece::UndergroundFountain)])
        + seq![BuilderKind::DoorPlacement] + stages_if(vaults, seq![BuilderKind::PrefabVaults])
        + seq![BuilderKind::EdgeBorder, BuilderKind::CullUnreachable]
}

/// A full random level recipe: a room or cave recipe followed by the common tail.
pub open spec fn is_random_recipe(starter: BuilderKind, steps: Seq<BuilderKind>) -> bool {
    exists|k: int, cellular: bool, fort: bool, fountain: bool, vaults: bool|
        #![trigger steps.take(k), builder_tail(cellular, fort, fountain, vaults)]
        0 <= k <= steps.len() && (is_room_recipe(starter, steps.take(k)) || is_shape_recipe(
            starter,
            steps.take(k),
        )) && steps.skip(k) == builder_tail(cellular, fort, fountain, vaults)
}

/// The data a builder chain works on: the level being built, what to spawn on it,
/// where the player starts, its rooms and corridors, and snapshots for the visualiser.
pub struct BuilderMap {
    pub spawn_list: Vec<(usize, String)>,
    pub map: GameMap,
    pub starting_position: Option<Position>,
    pub rooms: Option<Vec<Rect>>,
    pub corridors: Option<Vec<Vec<usize>>>,
    pub history: Vec<GameMap>,
    pub width: i32,
    pub height: i32,
}

impl BuilderMap {
    /// When the map-generation visualiser is on, records a copy of the current map with
    /// every tile revealed; otherwise changes nothing.
    pub fn take_snapshot(&mut self, show_visualizer: bool)
        ensures
            show_visualizer ==> {
                &&& final(self).history@.len() == old(self).history@.len() + 1
                &&& final(self).history@.take(old(self).history@.len() as int) == old(self).history@
                &&& final(self).history@.last().is_revealed_copy_of(&old(self).map)
            },
            !show_visualizer ==> final(self).history@ == old(self).history@,
            final(self).map == old(self).map,
            final(self).spawn_list == old(self).spawn_list,
            final(self).starting_position == old(self).starting_position,
            final(self).rooms == old(self).rooms,
            final(self).corridors == old(self).corridors,
            final(self).width == old(self).width,
            final(self).height == old(self).height,
    {
        if show_visualizer {
            let snapshot = revealed_copy(&self.map);
            self.history.push(snapshot);
            assert(self.history@.take(old(self).history@.len() as int) =~= old(self).history@);
        }
    }
}

/// A chain of map builders: one initial builder followed by meta builders applied in
/// order, with the data they build.
pub struct BuilderChain {
    pub starter: Option<BuilderKind>,
    pub builders: Vec<BuilderKind>,
    pub build_data: BuilderMap,
}

/// Fresh build data for a level of the given depth and size.
pub open spec fn is_fresh_build_data(bd: BuilderMap, depth: i32, width: i32, height: i32) -> bool {
    &&& bd.spawn_list@.len() == 0
    &&& bd.map.is_blank(depth, width, height)
    &&& bd.map.name@ == Seq::<char>::empty()
    &&& bd.starting_position is None
    &&& bd.rooms is None
    &&& bd.corridors is None
    &&& bd.history@.len() == 0
    &&& bd.width == width
    &&& bd.height == height
}

impl BuilderChain {
    /// An empty chain over a fresh solid-wall level.
    pub fn new(new_depth: i32, width: i32, height: i32) -> (chain: BuilderChain)
        requires
            0 <= width * height <= i32::MAX,
        ensures
            chain.starter is None,
            chain.builders@.len() == 0,
            is_fresh_build_data(chain.build_data, new_depth, width, height),
    {
        let name = "";
        proof {
            reveal_strlit("");
        }
        assert(name@ == Seq::<char>::empty());
        let map = GameMap::new(new_depth, width, height, name);
        let spawn_list: Vec<(usize, String)> = Vec::new();
        let history: Vec<GameMap> = Vec::new();
        assert(spawn_list@.len() == 0);
        assert(history@.len() == 0);
        BuilderChain {
            starter: None,
            builders: Vec::new(),
            build_data: BuilderMap {
                spawn_list,
                map,
                starting_position: None,
                rooms: None,
                corridors: None,
                history,
                width,
                height,
            },
        }
    }

    /// Sets the initial builder; a chain has only one.
    pub fn start_with(&mut self, starter: BuilderKind)
        requires
            old(self).starter is None,
        ensures
            final(self).starter == Some(starter),
            final(self).builders == old(self).builders,
            final(self).build_data == old(self).build_data,
    {
        match self.starter {
            None => self.starter = Some(starter),
            Some(_) => {},
        }
    }

    /// Where each spawn entry of the built level goes, in list order, and whether it can
    /// be placed there (not in a wall).
    pub fn spawn_entities(&self) -> (placements: Vec<(Position, bool)>)
        requires
            self.build_data.map.wf(),
            forall|i: int| 0 <= i < self.build_data.spawn_list@.len() ==> (#[trigger] self.build_data.spawn_list@[i]).0 < self.build_data.map.tile_count(),
        ensures
            placements@.len() == self.build_data.spawn_list@.len(),
            forall|i: int| 0 <= i < placements@.len() ==> {
                let idx = self.build_data.spawn_list@[i].0 as int;
                let w = self.build_data.map.width as int;
                &&& (#[trigger] placements@[i]).0.x == idx % w
                &&& placements@[i].0.y == idx / w
                &&& placements@[i].1 == spec_tile_walkable(self.build_data.map.tiles@[idx])
            },
    {
        let mut placements: Vec<(Position, bool)> = Vec::new();
        let mut i: usize = 0;
        while i < self.build_data.spawn_list.len()
            invariant
                i <= self.build_data.spawn_list@.len(),
                self.build_data.map.wf(),
                forall|j: int| 0 <= j < self.build_data.spawn_list@.len() ==> (#[trigger] self.build_data.spawn_list@[j]).0 < self.build_data.map.tile_count(),
                placements@.len() == i,
                forall|j: int| 0 <= j < i ==> {
                    let idx = self.build_data.spawn_list@[j].0 as int;
                    let w = self.build_data.map.width as int;
                    &&& (#[trigger] placements@[j]).0.x == idx % w
                    &&& placements@[j].0.y == idx / w
                    &&& placements@[j].1 == spec_tile_walkable(self.build_data.map.tiles@[idx])
                },
            decreases self.build_data.spawn_list@.len() - i,
        {
            let placement = spawn_entity(&self.build_data.map, &self.build_data.spawn_list[i]);
            placements.push(placement);
            i = i + 1;
        }
        placements
    }

    /// The builders the chain runs when it builds, in order: the initial builder, then
    /// each meta builder; `None` when the chain has no initial builder and cannot run.
    pub fn build_order(&self) -> (order: Option<Vec<BuilderKind>>)
        ensures
            match order {
                None => self.starter is None,
                Some(v) => self.starter matches Some(s) && v@ == seq![s] + self.builders@,
            },
    {
        match self.starter {
            None => None,
            Some(s) => {
                let mut v: Vec<BuilderKind> = Vec::new();
                v.push(s);
                let mut i: usize = 0;
                while i < self.builders.len()
                    invariant
                        i <= self.builders@.len(),
                        v@ == seq![s] + self.builders@.take(i as int),
                    decreases self.builders@.len() - i,
                {
                    v.push(self.builders[i]);
                    i = i + 1;
                    assert(v@ =~= seq![s] + self.builders@.take(i as int));
                }
                assert(self.builders@.take(i as int) =~= self.builders@);
                Some(v)
            },
        }
    }

    /// Appends a meta builder to the chain.
    pub fn with(&mut self, metabuilder: BuilderKind)
        ensures
            final(self).starter == old(self).starter,
            final(self).builders@ == old(self).builders@.push(metabuilder),
            final(self).build_data == old(self).build_data,
    {
        self.builders.push(metabuilder);
    }
}

/// A meta builder that walls in the outer ring of the map.
pub struct EdgeBorderBuilder;

impl EdgeBorderBuilder {
    /// Turns every tile on the outer ring of the level into a wall.
    pub fn build_map(&mut self, _rng: &mut RandomNumberGenerator, build_data: &mut BuilderMap)
        requires
            old(build_data).map.wf(),
            (old(build_data).map.width == 0) == (old(build_data).map.height == 0),
        ensures
            final(build_data).map.wf(),
            final(build_data).map.bordered(&old(build_data).map),
            final(build_data).map.width == old(build_data).map.width,
            final(build_data).map.height == old(build_data).map.height,
            final(build_data).map.revealed_tiles == old(build_data).map.revealed_tiles,
            final(build_data).map.visible_tiles == old(build_data).map.visible_tiles,
            final(build_data).map.blocked == old(build_data).map.blocked,
            final(build_data).map.depth == old(build_data).map.depth,
            final(build_data).map.bloodstains == old(build_data).map.bloodstains,
            final(build_data).map.view_blocked == old(build_data).map.view_blocked,
            final(build_data).map.name == old(build_data).map.name,
            final(build_data).map.outdoors == old(build_data).map.outdoors,
            final(build_data).map.tile_content == old(build_data).map.tile_content,
            final(build_data).spawn_list == old(build_data).spawn_list,
            final(build_data).starting_position == old(build_data).starting_position,
            final(build_data).rooms == old(build_data).rooms,
            final(build_data).corridors == old(build_data).corridors,
            final(build_data).history == old(build_data).history,
            final(build_data).width == old(build_data).width,
            final(build_data).height == old(build_data).height,
    {
        edge_border(&mut build_data.map);
    }
}

/// A map builder using the wave function collapse algorithm.
pub struct WaveformCollapseBuilder {}

impl WaveformCollapseBuilder {
    /// Constructor for waveform collapse.
    pub fn new() -> (b: Box<WaveformCollapseBuilder>)
        ensures
            *b == (WaveformCollapseBuilder {}),
    {
        Box::new(WaveformCollapseBuilder {})
    }
}

/// Where the tile gallery draws a pattern: its top-left corner and the page it is on.
#[derive(Clone, Copy, Debug, PartialEq, Eq, Structural)]
pub struct GallerySlot {
    pub x: i32,
    pub y: i32,
    pub page: usize,
}

/// The slot of pattern `k` in a gallery of `c`-wide patterns on a `w` x `h` map:
/// patterns go left to right with one tile between them from `(1, 1)`, a pattern that
/// would leave the row's right edge starts the next row, and one that would leave the
/// page's bottom edge starts a new page.
pub open spec fn gallery_pos(k: nat, c: int, w: int, h: int) -> (int, int, int)
    decreases k,
{
    if k == 0 {
        (1, 1, 0)
    } else {
        let prev = gallery_pos((k - 1) as nat, c, w, h);
        let x = prev.0 + c + 1;
        if x + c > w {
            let y = prev.1 + c + 1;
            if y + c > h {
                (1, 1, prev.2 + 1)
            } else {
                (1, y, prev.2)
            }
        } else {
            (x, prev.1, prev.2)
        }
    }
}

proof fn lemma_gallery_bounds(k: nat, c: int, w: int, h: int)
    requires
        0 < c,
    ensures
        1 <= gallery_pos(k, c, w, h).0,
        gallery_pos(k, c, w, h).0 == 1 || gallery_pos(k, c, w, h).0 + c <= w,
        1 <= gallery_pos(k, c, w, h).1,
        gallery_pos(k, c, w, h).1 == 1 || gallery_pos(k, c, w, h).1 + c <= h,
        0 <= gallery_pos(k, c, w, h).2 <= k,
    decreases k,
{
    if k > 0 {
        lemma_gallery_bounds((k - 1) as nat, c, w, h);
    }
}

impl WaveformCollapseBuilder {
    /// Lays out the tile gallery that shows the `count` patterns found in a map, in
    /// order: the slot of each pattern (see `gallery_pos`). The caller draws page by
    /// page, recording a snapshot when a page is full and after the last pattern.
    pub fn gallery_layout(count: usize, chunk_size: i32, width: i32, height: i32) -> (slots: Vec<GallerySlot>)
        requires
            0 < chunk_size,
            0 <= width,
            0 <= height,
            width + 2 * chunk_size + 2 <= i32::MAX,
            height + 2 * chunk_size + 2 <= i32::MAX,
        ensures
            slots@.len() == count,
            forall|k: int|
                0 <= k < count ==> {
                    let p = gallery_pos(k as nat, chunk_size as int, width as int, height as int);
                    &&& (#[trigger] slots@[k]).x == p.0
                    &&& slots@[k].y == p.1
                    &&& slots@[k].page == p.2
                },
    {
        let ghost c = chunk_size as int;
        let ghost w = width as int;
        let ghost h = height as int;
        let mut slots: Vec<GallerySlot> = Vec::new();
        let mut x: i32 = 1;
        let mut y: i32 = 1;
        let mut page: usize = 0;
        let mut counter: usize = 0;
        while counter < count
            invariant
                0 < chunk_size,
                0 <= width,
                0 <= height,
                c == chunk_size,
                w == width,
                h == height,
                width + 2 * chunk_size + 2 <= i32::MAX,
                height + 2 * chunk_size + 2 <= i32::MAX,
                counter <= count,
                slots@.len() == counter,
                (x as int, y as int, page as int) == gallery_pos(counter as nat, c, w, h),
                forall|k: int|
                    0 <= k < counter ==> {
                        let p = gallery_pos(k as nat, c, w, h);
                        &&& (#[trigger] slots@[k]).x == p.0
                        &&& slots@[k].y == p.1
                        &&& slots@[k].page == p.2
                    },
            decreases count - counter,
        {
            proof {
                lemma_gallery_bounds(counter as nat, c, w, h);
            }
            slots.push(GallerySlot { x, y, page });
            x = x + chunk_size + 1;
            if x + chunk_size > width {
                x = 1;
                y = y + chunk_size + 1;
                if y + chunk_size > height {
                    page = page + 1;
                    x = 1;
                    y = 1;
                }
            }
            counter = counter + 1;
        }
        slots
    }
}

/// Rolls one die with `sides` faces.
fn roll(rng: &mut RandomNumberGenerator, sides: i32) -> (r: i32)
    requires
        1 <= sides < i32::MAX,
    ensures
        1 <= r <= sides,
{
    roll_dice(rng, 1, sides)
}

/// A random starting area: horizontal and vertical anchors each from a three-sided die.
pub fn random_start_position(rng: &mut RandomNumberGenerator) -> (start: (XStart, YStart))
    ensures
        exists|xroll: int, yroll: int|
            1 <= xroll <= 3 && 1 <= yroll <= 3 && start == (spec_x_start(xroll), spec_y_start(
                yroll,
            )),
{
    let xroll = roll(rng, 3);
    let x = x_start_for(xroll);
    let yroll = roll(rng, 3);
    let y = y_start_for(yroll);
    assert(1 <= xroll <= 3 && 1 <= yroll <= 3 && (x, y) == (spec_x_start(xroll as int), spec_y_start(yroll as int)));
    (x, y)
}

/// The corridor spawner added for a roll of a two-sided die: only on a 1.
pub open spec fn spec_corridor_spawner(roll: int) -> Seq<BuilderKind> {
    stages_if(roll == 1, seq![BuilderKind::CorridorSpawner])
}

/// How the player's start is chosen for a roll of a two-sided die: in the first room on
/// a 1, otherwise in the area at the anchors rolled on two three-sided dice.
pub open spec fn spec_start_choice(roll: int, xroll: int, yroll: int) -> BuilderKind {
    if roll == 1 {
        BuilderKind::RoomBasedStartingPosition
    } else {
        BuilderKind::AreaStartingPosition(spec_x_start(xroll), spec_y_start(yroll))
    }
}

/// How the stairs are placed for a roll of a two-sided die.
pub open spec fn spec_exit_choice(roll: int) -> BuilderKind {
    if roll == 1 {
        BuilderKind::RoomBasedStairs
    } else {
        BuilderKind::DistantExit
    }
}

/// How monsters are spawned for a roll of a two-sided die.
pub open spec fn spec_spawn_choice(roll: int) -> BuilderKind {
    if roll == 1 {
        BuilderKind::RoomBasedSpawner
    } else {
        BuilderKind::VoronoiSpawning
    }
}

/// The meta builders of a room-based recipe for its rolls: unless the starter roll is 3
/// (the BSP interior builder), a sorter, the room drawer, corridors, a corridor spawner on
/// a 1 and a room modifier; then the start, exit and spawn choices.
pub open spec fn spec_room_steps(build: int, sort: int, corridor: int, cspawn: int, modifier: int, start: int, xroll: int, yroll: int, exit: int, spawn: int) -> Seq<BuilderKind> {
    (if build == 3 {
        Seq::empty()
    } else {
        seq![spec_room_sorter(sort), BuilderKind::RoomDrawer, spec_corridors(corridor)] + spec_corridor_spawner(cspawn)
            + spec_room_modifier(modifier)
    }) + seq![spec_start_choice(start, xroll, yroll), spec_exit_choice(exit), spec_spawn_choice(spawn)]
}

/// A room-based recipe made by some rolls of its dice: a d3 for the starter, d5 sorter,
/// d4 corridors, d2 corridor spawner, d6 modifier, d2 start kind, two d3 anchors, d2 exit
/// and d2 spawner.
pub open spec fn room_recipe_rolled(starter: BuilderKind, steps: Seq<BuilderKind>) -> bool {
    exists|build: int, sort: int, corridor: int, cspawn: int, modifier: int, start: int, xroll: int, yroll: int, exit: int, spawn: int|
        #![trigger spec_room_steps(build, sort, corridor, cspawn, modifier, start, xroll, yroll, exit, spawn)]
        {
            &&& 1 <= build <= 3 && 1 <= sort <= 5 && 1 <= corridor <= 4 && 1 <= cspawn <= 2
            &&& 1 <= modifier <= 6 && 1 <= start <= 2 && 1 <= xroll <= 3 && 1 <= yroll <= 3
            &&& 1 <= exit <= 2 && 1 <= spawn <= 2
            &&& starter == spec_room_starter(build)
            &&& steps == spec_room_steps(build, sort, corridor, cspawn, modifier, start, xroll, yroll, exit, spawn)
        }
}

/// The meta builders of a cave-like recipe whose start area was rolled on two d3.
pub open spec fn spec_shape_steps(xroll: int, yroll: int) -> Seq<BuilderKind> {
    seq![
        BuilderKind::AreaStartingPosition(XStart::CENTER, YStart::CENTER),
        BuilderKind::CullUnreachable,
        BuilderKind::AreaStartingPosition(spec_x_start(xroll), spec_y_start(yroll)),
        BuilderKind::VoronoiSpawning,
        BuilderKind::DistantExit,
    ]
}

/// A cave-like recipe made by some rolls of its dice: a d16 for the starter and two d3
/// for the start area.
pub open spec fn shape_recipe_rolled(starter: BuilderKind, steps: Seq<BuilderKind>) -> bool {
    exists|roll: int, xroll: int, yroll: int|
        #![trigger spec_shape_starter(roll), spec_shape_steps(xroll, yroll)]
        1 <= roll <= 16 && 1 <= xroll <= 3 && 1 <= yroll <= 3 && starter == spec_shape_starter(roll)
            && steps == spec_shape_steps(xroll, yroll)
}

/// The finishing stages for the rolls of a d100 (cellular pass on a 1), d30 (fort on a
/// 1), d45 (fountain on a 1) and d2 (vaults on a 1).
pub open spec fn spec_tail_for(cellular: int, fort: int, fountain: int, vaults: int) -> Seq<BuilderKind> {
    builder_tail(cellular == 1, fort == 1, fountain == 1, vaults == 1)
}

/// The recipe chosen by a roll of a two-sided die: a room recipe on a 1, otherwise a
/// cave recipe.
pub open spec fn kind_recipe_rolled(kind: int, starter: BuilderKind, steps: Seq<BuilderKind>) -> bool {
    if kind == 1 {
        room_recipe_rolled(starter, steps)
    } else {
        shape_recipe_rolled(starter, steps)
    }
}

/// A full random recipe made by some rolls of its dice: a d2 choosing a room recipe (on a
/// 1) or a cave recipe, then the finishing stages for their rolls.
pub open spec fn random_recipe_rolled(starter: BuilderKind, steps: Seq<BuilderKind>) -> bool {
    exists|k: int, kind: int, cellular: int, fort: int, fountain: int, vaults: int|
        #![trigger kind_recipe_rolled(kind, starter, steps.take(k)), spec_tail_for(cellular, fort, fountain, vaults)]
        {
            &&& 0 <= k <= steps.len()
            &&& 1 <= kind <= 2 && 1 <= cellular <= 100 && 1 <= fort <= 30 && 1 <= fountain <= 45 && 1 <= vaults <= 2
            &&& kind_recipe_rolled(kind, starter, steps.take(k))
            &&& steps.skip(k) == spec_tail_for(cellular, fort, fountain, vaults)
        }
}

/// What each roll of a room recipe picks: the starter roll of 3 leaves out the room
/// layout; otherwise the corridor spawner comes only on a 1 of its d2, the room exploder
/// only on a 1 and the corner rounder only on a 2 of the d6; the last three stages are
/// the start (in the first room on a 1, else in an area), the stairs (room-based on a 1,
/// else far away) and the spawner (room-based on a 1, else Voronoi).
pub proof fn law_room_rolls_pick_their_builders(build: int, sort: int, corridor: int, cspawn: int, modifier: int, start: int, xroll: int, yroll: int, exit: int, spawn: int)
    ensures
        ({
            let st = spec_room_steps(build, sort, corridor, cspawn, modifier, start, xroll, yroll, exit, spawn);
            let n = st.len();
            &&& build == 3 ==> n == 3
            &&& build != 3 ==> st[1] == BuilderKind::RoomDrawer
            &&& build != 3 && sort == 1 ==> st[0] == BuilderKind::RoomSorter(RoomSort::LEFTMOST)
            &&& build != 3 && corridor == 1 ==> st[2] == BuilderKind::DoglegCorridors
            &&& st.contains(BuilderKind::CorridorSpawner) <==> (build != 3 && cspawn == 1)
            &&& st.contains(BuilderKind::RoomExploder) <==> (build != 3 && modifier == 1)
            &&& st.contains(BuilderKind::RoomCornerRounder) <==> (build != 3 && modifier == 2)
            &&& n >= 3
            &&& start == 1 ==> st[n - 3] == BuilderKind::RoomBasedStartingPosition
            &&& start != 1 && xroll == 1 && yroll == 1 ==> st[n - 3] == BuilderKind::AreaStartingPosition(XStart::LEFT, YStart::BOTTOM)
            &&& start != 1 ==> st[n - 3] is AreaStartingPosition
            &&& exit == 1 ==> st[n - 2] == BuilderKind::RoomBasedStairs
            &&& exit != 1 ==> st[n - 2] == BuilderKind::DistantExit
            &&& spawn == 1 ==> st[n - 1] == BuilderKind::RoomBasedSpawner
            &&& spawn != 1 ==> st[n - 1] == BuilderKind::VoronoiSpawning
        }),
{
    let st = spec_room_steps(build, sort, corridor, cspawn, modifier, start, xroll, yroll, exit, spawn);
    let n = st.len();
    let tail3 = seq![spec_start_choice(start, xroll, yroll), spec_exit_choice(exit), spec_spawn_choice(spawn)];
    let layout = if build == 3 {
        Seq::<BuilderKind>::empty()
    } else {
        seq![spec_room_sorter(sort), BuilderKind::RoomDrawer, spec_corridors(corridor)] + spec_corridor_spawner(cspawn)
            + spec_room_modifier(modifier)
    };
    assert(st == layout + tail3);
    assert(!tail3.contains(BuilderKind::CorridorSpawner));
    assert(!tail3.contains(BuilderKind::RoomExploder));
    assert(!tail3.contains(BuilderKind::RoomCornerRounder));
    if build != 3 {
        let head = seq![spec_room_sorter(sort), BuilderKind::RoomDrawer, spec_corridors(corridor)];
        let cs = spec_corridor_spawner(cspawn);
        let md = spec_room_modifier(modifier);
        assert(!head.contains(BuilderKind::CorridorSpawner));
        assert(!head.contains(BuilderKind::RoomExploder));
        assert(!head.contains(BuilderKind::RoomCornerRounder));
        assert(!md.contains(BuilderKind::CorridorSpawner));
        assert(!cs.contains(BuilderKind::RoomExploder));
        assert(!cs.contains(BuilderKind::RoomCornerRounder));
        assert(cspawn == 1 ==> cs[0] == BuilderKind::CorridorSpawner);
        assert(modifier == 1 ==> md[0] == BuilderKind::RoomExploder);
        assert(modifier == 2 ==> md[0] == BuilderKind::RoomCornerRounder);
        assert(modifier != 1 ==> !md.contains(BuilderKind::RoomExploder));
        assert(modifier != 2 ==> !md.contains(BuilderKind::RoomCornerRounder));
        assert(cspawn != 1 ==> !cs.contains(BuilderKind::CorridorSpawner));
        assert forall|b: BuilderKind| (head + cs).contains(b) <==> head.contains(b) || cs.contains(b) by {
            if (head + cs).contains(b) {
                let i = choose|i: int| 0 <= i < (head + cs).len() && (head + cs)[i] == b;
                if i >= head.len() { assert(cs[i - head.len()] == b); }
            }
            if cs.contains(b) {
                let i = choose|i: int| 0 <= i < cs.len() && cs[i] == b;
                assert((head + cs)[head.len() + i] == b);
            }
            if head.contains(b) {
                let i = choose|i: int| 0 <= i < head.len() && head[i] == b;
                assert((head + cs)[i] == b);
            }
        }
        let hc = head + cs;
        assert forall|b: BuilderKind| (hc + md).contains(b) <==> hc.contains(b) || md.contains(b) by {
            if (hc + md).contains(b) {
                let i = choose|i: int| 0 <= i < (hc + md).len() && (hc + md)[i] == b;
                if i >= hc.len() { assert(md[i - hc.len()] == b); }
            }
            if md.contains(b) {
                let i = choose|i: int| 0 <= i < md.len() && md[i] == b;
                assert((hc + md)[hc.len() + i] == b);
            }
            if hc.contains(b) {
                let i = choose|i: int| 0 <= i < hc.len() && hc[i] == b;
                assert((hc + md)[i] == b);
            }
        }
        assert(layout == hc + md);
    }
    assert forall|b: BuilderKind| st.contains(b) <==> layout.contains(b) || tail3.contains(b) by {
        if st.contains(b) {
            let i = choose|i: int| 0 <= i < st.len() && st[i] == b;
            if i >= layout.len() { assert(tail3[i - layout.len()] == b); }
        }
        if tail3.contains(b) {
            let i = choose|i: int| 0 <= i < tail3.len() && tail3[i] == b;
            assert(st[layout.len() + i] == b);
        }
        if layout.contains(b) {
            let i = choose|i: int| 0 <= i < layout.len() && layout[i] == b;
            assert(st[i] == b);
        }
    }
    assert(st[n - 3] == tail3[0]);
    assert(st[n - 2] == tail3[1]);
    assert(st[n - 1] == tail3[2]);
}

/// An element lies in a concatenation exactly when it lies in one of its parts.
proof fn lemma_concat_contains(a: Seq<BuilderKind>, b: Seq<BuilderKind>, x: BuilderKind)
    ensures
        (a + b).contains(x) <==> a.contains(x) || b.contains(x),
{
    if (a + b).contains(x) {
        let i = choose|i: int| 0 <= i < (a + b).len() && (a + b)[i] == x;
        if i >= a.len() {
            assert(b[i - a.len()] == x);
        }
    }
    if b.contains(x) {
        let i = choose|i: int| 0 <= i < b.len() && b[i] == x;
        assert((a + b)[a.len() + i] == x);
    }
    if a.contains(x) {
        let i = choose|i: int| 0 <= i < a.len() && a[i] == x;
        assert((a + b)[i] == x);
    }
}

/// What each roll of the finishing stages picks: the cellular pass only on a 1 of the
/// d100, the fort only on a 1 of the d30, the fountain only on a 1 of the d45, the vaults
/// only on a 1 of the d2; doors always, and the recipe always ends with the edge border
/// and a final cull.
pub proof fn law_tail_rolls_pick_their_stages(cellular: int, fort: int, fountain: int, vaults: int)
    ensures
        ({
            let t = spec_tail_for(cellular, fort, fountain, vaults);
            let n = t.len();
            &&& t.contains(BuilderKind::CellularAutomata) <==> cellular == 1
            &&& t.contains(BuilderKind::PrefabSectional(PrefabPiece::UndergroundFort)) <==> fort == 1
            &&& t.contains(BuilderKind::PrefabSectional(PrefabPiece::UndergroundFountain)) <==> fountain == 1
            &&& t.contains(BuilderKind::PrefabVaults) <==> vaults == 1
            &&& t.contains(BuilderKind::DoorPlacement)
            &&& n >= 3
            &&& t[n - 2] == BuilderKind::EdgeBorder
            &&& t[n - 1] == BuilderKind::CullUnreachable
        }),
{
    let a = stages_if(cellular == 1, seq![BuilderKind::CellularAutomata, BuilderKind::VoronoiSpawning]);
    let b = stages_if(fort == 1, seq![BuilderKind::PrefabSectional(PrefabPiece::UndergroundFort)]);
    let c = stages_if(fountain == 1, seq![BuilderKind::PrefabSectional(PrefabPiece::UndergroundFountain)]);
    let d = seq![BuilderKind::DoorPlacement];
    let e = stages_if(vaults == 1, seq![BuilderKind::PrefabVaults]);
    let f = seq![BuilderKind::EdgeBorder, BuilderKind::CullUnreachable];
    let t = spec_tail_for(cellular, fort, fountain, vaults);
    assert(t == a + b + c + d + e + f);
    let xs = seq![
        BuilderKind::CellularAutomata,
        BuilderKind::PrefabSectional(PrefabPiece::UndergroundFort),
        BuilderKind::PrefabSectional(PrefabPiece::UndergroundFountain),
        BuilderKind::PrefabVaults,
        BuilderKind::DoorPlacement,
    ];
    assert forall|k: int| 0 <= k < xs.len() implies (t.contains(xs[k]) <==> (a.contains(xs[k]) || b.contains(xs[k])
        || c.contains(xs[k]) || d.contains(xs[k]) || e.contains(xs[k]) || f.contains(xs[k]))) by {
        let x = xs[k];
        lemma_concat_contains(a, b, x);
        lemma_concat_contains(a + b, c, x);
        lemma_concat_contains(a + b + c, d, x);
        lemma_concat_contains(a + b + c + d, e, x);
        lemma_concat_contains(a + b + c + d + e, f, x);
    }
    assert(xs[0] == BuilderKind::CellularAutomata);
    assert(xs[1] == BuilderKind::PrefabSectional(PrefabPiece::UndergroundFort));
    assert(xs[2] == BuilderKind::PrefabSectional(PrefabPiece::UndergroundFountain));
    assert(xs[3] == BuilderKind::PrefabVaults);
    assert(xs[4] == BuilderKind::DoorPlacement);
    assert(d[0] == BuilderKind::DoorPlacement);
    assert(cellular == 1 ==> a[0] == BuilderKind::CellularAutomata);
    assert(fort == 1 ==> b[0] == BuilderKind::PrefabSectional(PrefabPiece::UndergroundFort));
    assert(fountain == 1 ==> c[0] == BuilderKind::PrefabSectional(PrefabPiece::UndergroundFountain));
    assert(vaults == 1 ==> e[0] == BuilderKind::PrefabVaults);
    assert(t[t.len() - 2] == f[0]);
    assert(t[t.len() - 1] == f[1]);
}

/// Adds a random room-based level recipe to the chain.
pub fn random_room_builder(rng: &mut RandomNumberGenerator, builder: &mut BuilderChain)
    requires
        old(builder).starter is None,
    ensures
        final(builder).starter matches Some(s) && room_recipe_rolled(
            s,
            final(builder).builders@.skip(old(builder).builders@.len() as int),
        ),
        final(builder).starter matches Some(s) && is_room_recipe(
            s,
            final(builder).builders@.skip(old(builder).builders@.len() as int),
        ),
        final(builder).builders@.take(old(builder).builders@.len() as int) == old(builder).builders@,
        final(builder).build_data == old(builder).build_data,
{
    let ghost before = builder.builders@;
    let ghost mut g_sort: int = 1;
    let ghost mut g_corridor: int = 1;
    let ghost mut g_cspawn: int = 2;
    let ghost mut g_modifier: int = 3;
    let ghost mut g_x: int = 1;
    let ghost mut g_y: int = 1;
    let build_roll = roll(rng, 3);
    builder.start_with(room_starter_for(build_roll));
    if build_roll != 3 {
        let sort_roll = roll(rng, 5);
        builder.with(room_sorter_for(sort_roll));
        builder.with(BuilderKind::RoomDrawer);
        let corridor_roll = roll(rng, 4);
        builder.with(corridors_for(corridor_roll));
        let cspawn_roll = roll(rng, 2);
        if cspawn_roll == 1 {
            builder.with(BuilderKind::CorridorSpawner);
        }
        let modifier_roll = roll(rng, 6);
        match modifier_roll {
            1 => builder.with(BuilderKind::RoomExploder),
            2 => builder.with(BuilderKind::RoomCornerRounder),
            _ => {},
        }
        proof {
            g_sort = sort_roll as int;
            g_corridor = corridor_roll as int;
            g_cspawn = cspawn_roll as int;
            g_modifier = modifier_roll as int;
        }
    }
    let ghost layout = builder.builders@.skip(before.len() as int);
    assert(layout =~= (if build_roll == 3 {
        Seq::empty()
    } else {
        seq![spec_room_sorter(g_sort), BuilderKind::RoomDrawer, spec_corridors(g_corridor)] + spec_corridor_spawner(g_cspawn)
            + spec_room_modifier(g_modifier)
    }));
    let start_roll = roll(rng, 2);
    match start_roll {
        1 => builder.with(BuilderKind::RoomBasedStartingPosition),
        _ => {
            let (start_x, start_y) = random_start_position(rng);
            proof {
                let (xr, yr) = choose|xr: int, yr: int|
                    1 <= xr <= 3 && 1 <= yr <= 3 && (start_x, start_y) == (spec_x_start(xr), spec_y_start(yr));
                g_x = xr;
                g_y = yr;
            }
            builder.with(BuilderKind::AreaStartingPosition(start_x, start_y));
        },
    }
    let exit_roll = roll(rng, 2);
    match exit_roll {
        1 => builder.with(BuilderKind::RoomBasedStairs),
        _ => builder.with(BuilderKind::DistantExit),
    }
    let spawn_roll = roll(rng, 2);
    match spawn_roll {
        1 => builder.with(BuilderKind::RoomBasedSpawner),
        _ => builder.with(BuilderKind::VoronoiSpawning),
    }
    proof {
        let steps = builder.builders@.skip(before.len() as int);
        assert(steps.take(steps.len() - 3) =~= layout);
        assert(builder.builders@.take(before.len() as int) =~= before);
        assert(steps =~= spec_room_steps(build_roll as int, g_sort, g_corridor, g_cspawn, g_modifier, start_roll as int, g_x, g_y, exit_roll as int, spawn_roll as int));
        lemma_rolled_room_recipe_shape(build_roll as int, g_sort, g_corridor, g_cspawn, g_modifier, start_roll as int, g_x, g_y, exit_roll as int, spawn_roll as int);
    }
}

/// The recipe of any rolls of the room dice has the shape of a room recipe.
proof fn lemma_rolled_room_recipe_shape(build: int, sort: int, corridor: int, cspawn: int, modifier: int, start: int, xroll: int, yroll: int, exit: int, spawn: int)
    requires
        1 <= build <= 3,
        1 <= sort <= 5,
        1 <= corridor <= 4,
    ensures
        is_room_recipe(spec_room_starter(build), spec_room_steps(build, sort, corridor, cspawn, modifier, start, xroll, yroll, exit, spawn)),
{
    let steps = spec_room_steps(build, sort, corridor, cspawn, modifier, start, xroll, yroll, exit, spawn);
    let n = steps.len();
    if build != 3 {
        let layout = seq![spec_room_sorter(sort), BuilderKind::RoomDrawer, spec_corridors(corridor)] + spec_corridor_spawner(cspawn)
            + spec_room_modifier(modifier);
        assert(steps.take(n - 3) =~= layout);
        let rest = layout.skip(3);
        assert(rest =~= spec_corridor_spawner(cspawn) + spec_room_modifier(modifier));
        assert(rest =~= Seq::<BuilderKind>::empty() || rest =~= seq![BuilderKind::CorridorSpawner]
            || rest =~= seq![BuilderKind::RoomExploder] || rest =~= seq![BuilderKind::RoomCornerRounder]
            || rest =~= seq![BuilderKind::CorridorSpawner, BuilderKind::RoomExploder]
            || rest =~= seq![BuilderKind::CorridorSpawner, BuilderKind::RoomCornerRounder]);
    }
}

/// Adds a random cave-like level recipe to the chain.
pub fn random_shape_builder(rng: &mut RandomNumberGenerator, builder: &mut BuilderChain)
    requires
        old(builder).starter is None,
    ensures
        final(builder).starter matches Some(s) && shape_recipe_rolled(
            s,
            final(builder).builders@.skip(old(builder).builders@.len() as int),
        ),
        final(builder).starter matches Some(s) && is_shape_recipe(
            s,
            final(builder).builders@.skip(old(builder).builders@.len() as int),
        ),
        final(builder).builders@.take(old(builder).builders@.len() as int) == old(builder).builders@,
        final(builder).build_data == old(builder).build_data,
{
    let ghost before = builder.builders@;
    let builder_roll = roll(rng, 16);
    builder.start_with(shape_starter_for(builder_roll));
    builder.with(BuilderKind::AreaStartingPosition(XStart::CENTER, YStart::CENTER));
    builder.with(BuilderKind::CullUnreachable);
    let (start_x, start_y) = random_start_position(rng);
    builder.with(BuilderKind::AreaStartingPosition(start_x, start_y));
    builder.with(BuilderKind::VoronoiSpawning);
    builder.with(BuilderKind::DistantExit);
    proof {
        assert(builder.builders@.take(before.len() as int) =~= before);
        let (xr, yr) = choose|xr: int, yr: int|
            1 <= xr <= 3 && 1 <= yr <= 3 && (start_x, start_y) == (spec_x_start(xr), spec_y_start(yr));
        assert(builder.builders@.skip(before.len() as int) =~= spec_shape_steps(xr, yr));
        assert(spec_shape_starter(builder_roll as int) == builder.starter->Some_0);
    }
}

/// A chain for a level of the given depth and size, built from a random room or cave
/// recipe followed by the common finishing stages.
pub fn random_builder(new_depth: i32, rng: &mut RandomNumberGenerator, width: i32, height: i32) -> (chain: BuilderChain)
    requires
        0 <= width * height <= i32::MAX,
    ensures
        chain.starter matches Some(s) && random_recipe_rolled(s, chain.builders@),
        chain.starter matches Some(s) && is_random_recipe(s, chain.builders@),
        is_fresh_build_data(chain.build_data, new_depth, width, height),
{
    let mut builder = BuilderChain::new(new_depth, width, height);
    let type_roll = roll(rng, 2);
    match type_roll {
        1 => random_room_builder(rng, &mut builder),
        _ => random_shape_builder(rng, &mut builder),
    }
    let ghost recipe = builder.builders@;
    let cellular_roll = roll(rng, 100);
    let cellular = cellular_roll == 1;
    if cellular {
        builder.with(BuilderKind::CellularAutomata);
        builder.with(BuilderKind::VoronoiSpawning);
    }
    let fort_roll = roll(rng, 30);
    let fort = fort_roll == 1;
    if fort {
        builder.with(BuilderKind::PrefabSectional(PrefabPiece::UndergroundFort));
    }
    let fountain_roll = roll(rng, 45);
    let fountain = fountain_roll == 1;
    if fountain {
        builder.with(BuilderKind::PrefabSectional(PrefabPiece::UndergroundFountain));
    }
    builder.with(BuilderKind::DoorPlacement);
    let vaults_roll = roll(rng, 2);
    let vaults = vaults_roll == 1;
    if vaults {
        builder.with(BuilderKind::PrefabVaults);
    }
    builder.with(BuilderKind::EdgeBorder);
    builder.with(BuilderKind::CullUnreachable);
    proof {
        let steps = builder.builders@;
        let k = recipe.len() as int;
        assert(steps.take(k) =~= recipe);
        assert(recipe.skip(0) =~= recipe);
        assert(steps.skip(k) =~= builder_tail(cellular, fort, fountain, vaults));
        assert(steps.skip(k) == spec_tail_for(cellular_roll as int, fort_roll as int, fountain_roll as int, vaults_roll as int));
        let s = builder.starter->Some_0;
        assert(is_room_recipe(s, steps.take(k)) || is_shape_recipe(s, steps.take(k)));
        let kind = type_roll as int;
        assert(kind_recipe_rolled(kind, s, steps.take(k)));
    }
    builder
}

/// Every random level recipe ends by walling in the map's edge and then culling the
/// tiles that cannot be reached, and places doors before that.
pub proof fn law_random_recipe_ends_with_border(starter: BuilderKind, steps: Seq<BuilderKind>)
    requires
        is_random_recipe(starter, steps),
    ensures
        steps.len() >= 3,
        steps[steps.len() - 2] == BuilderKind::EdgeBorder,
        steps[steps.len() - 1] == BuilderKind::CullUnreachable,
        steps.contains(BuilderKind::DoorPlacement),
{
    let (k, cellular, fort, fountain, vaults) = choose|k: int, cellular: bool, fort: bool, fountain: bool, vaults: bool|
        #![trigger steps.take(k), builder_tail(cellular, fort, fountain, vaults)]
        0 <= k <= steps.len() && (is_room_recipe(starter, steps.take(k)) || is_shape_recipe(starter, steps.take(k)))
            && steps.skip(k) == builder_tail(cellular, fort, fountain, vaults);
    let tail = builder_tail(cellular, fort, fountain, vaults);
    assert(steps.skip(k) == tail);
    let pre = stages_if(cellular, seq![BuilderKind::CellularAutomata, BuilderKind::VoronoiSpawning])
        + stages_if(fort, seq![BuilderKind::PrefabSectional(PrefabPiece::UndergroundFort)])
        + stages_if(fountain, seq![BuilderKind::PrefabSectional(PrefabPiece::UndergroundFountain)]);
    let doors_at = pre.len();
    assert(tail[doors_at as int] == BuilderKind::DoorPlacement);
    assert(tail.len() >= 3);
    assert(steps[k + doors_at] == tail[doors_at as int]);
    assert(steps[steps.len() - 2] == tail[tail.len() - 2]);
    assert(steps[steps.len() - 1] == tail[tail.len() - 1]);
}

} // verus!
