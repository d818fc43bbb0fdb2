use rltk::RandomNumberGenerator;
use rusty_roguelike::builders::{
    corridors_for, random_builder, random_room_builder, random_shape_builder, random_start_position,
    room_sorter_for, room_starter_for, shape_starter_for, x_start_for, y_start_for, BuilderChain,
    BuilderKind, BuilderMap, DlaStyle, DrunkardStyle, EdgeBorderBuilder, PrefabPiece, RoomSort,
    VoronoiDistance, WaveformCollapseBuilder, XStart, YStart, GallerySlot,
};
use rusty_roguelike::map::GameMap;
use rusty_roguelike::tiles::TileType;

#[test]
fn roll_tables() {
    assert_eq!(x_start_for(1), XStart::LEFT);
    assert_eq!(x_start_for(2), XStart::CENTER);
    assert_eq!(x_start_for(3), XStart::RIGHT);
    assert_eq!(y_start_for(1), YStart::BOTTOM);
    assert_eq!(y_start_for(2), YStart::CENTER);
    assert_eq!(y_start_for(3), YStart::TOP);
    assert_eq!(room_starter_for(1), BuilderKind::SimpleMap);
    assert_eq!(room_starter_for(2), BuilderKind::BspDungeon);
    assert_eq!(room_starter_for(3), BuilderKind::BspInterior);
    assert_eq!(room_sorter_for(1), BuilderKind::RoomSorter(RoomSort::LEFTMOST));
    assert_eq!(room_sorter_for(4), BuilderKind::RoomSorter(RoomSort::BOTTOMMOST));
    assert_eq!(room_sorter_for(5), BuilderKind::RoomSorter(RoomSort::CENTRAL));
    assert_eq!(corridors_for(1), BuilderKind::DoglegCorridors);
    assert_eq!(corridors_for(2), BuilderKind::NearestCorridors);
    assert_eq!(corridors_for(3), BuilderKind::StraightLineCorridors);
    assert_eq!(corridors_for(4), BuilderKind::BspCorridors);
    assert_eq!(shape_starter_for(1), BuilderKind::CellularAutomata);
    assert_eq!(shape_starter_for(4), BuilderKind::DrunkardsWalk(DrunkardStyle::WindingPassages));
    assert_eq!(shape_starter_for(7), BuilderKind::Maze);
    assert_eq!(shape_starter_for(11), BuilderKind::Dla(DlaStyle::Insectoid));
    assert_eq!(shape_starter_for(13), BuilderKind::VoronoiCells(VoronoiDistance::Manhattan));
    assert_eq!(shape_starter_for(16), BuilderKind::PrefabConstant(PrefabPiece::WfcPopulated));
}

#[test]
fn new_chain_is_empty_over_a_wall_map() {
    let chain = BuilderChain::new(2, 6, 4);
    assert!(chain.starter.is_none());
    assert!(chain.builders.is_empty());
    assert_eq!(chain.build_data.map.tiles.len(), 24);
    assert_eq!(chain.build_data.map.depth, 2);
    assert!(chain.build_data.history.is_empty());
    assert_eq!((chain.build_data.width, chain.build_data.height), (6, 4));
}

#[test]
fn start_with_and_with() {
    let mut chain = BuilderChain::new(1, 3, 3);
    chain.start_with(BuilderKind::Maze);
    chain.with(BuilderKind::DoorPlacement);
    chain.with(BuilderKind::EdgeBorder);
    assert_eq!(chain.starter, Some(BuilderKind::Maze));
    assert_eq!(chain.builders, vec![BuilderKind::DoorPlacement, BuilderKind::EdgeBorder]);
}

fn is_room_starter(b: BuilderKind) -> bool {
    matches!(b, BuilderKind::SimpleMap | BuilderKind::BspDungeon | BuilderKind::BspInterior)
}

#[test]
fn random_builders_end_with_border_and_cull() {
    let mut starters = Vec::new();
    for seed in 0..60u64 {
        let mut rng = RandomNumberGenerator::seeded(seed);
        let chain = random_builder(1, &mut rng, 10, 8);
        let steps = &chain.builders;
        let n = steps.len();
        assert!(n >= 3);
        assert_eq!(steps[n - 2], BuilderKind::EdgeBorder);
        assert_eq!(steps[n - 1], BuilderKind::CullUnreachable);
        assert!(steps.contains(&BuilderKind::DoorPlacement));
        assert_eq!(chain.build_data.map.tiles.len(), 80);
        starters.push(chain.starter.unwrap());
    }
    starters.sort_by_key(|b| format!("{:?}", b));
    starters.dedup();
    assert!(starters.len() > 3);
}

#[test]
fn room_recipes_have_their_shape() {
    let mut saw_interior = false;
    let mut saw_layout = false;
    for seed in 0..40u64 {
        let mut rng = RandomNumberGenerator::seeded(seed);
        let mut chain = BuilderChain::new(1, 10, 10);
        random_room_builder(&mut rng, &mut chain);
        let s = chain.starter.unwrap();
        assert!(is_room_starter(s));
        let steps = &chain.builders;
        let n = steps.len();
        assert!(matches!(
            steps[n - 3],
            BuilderKind::RoomBasedStartingPosition | BuilderKind::AreaStartingPosition(_, _)
        ));
        assert!(matches!(steps[n - 2], BuilderKind::RoomBasedStairs | BuilderKind::DistantExit));
        assert!(matches!(steps[n - 1], BuilderKind::RoomBasedSpawner | BuilderKind::VoronoiSpawning));
        if s == BuilderKind::BspInterior {
            saw_interior = true;
            assert_eq!(n, 3);
        } else {
            saw_layout = true;
            assert!(matches!(steps[0], BuilderKind::RoomSorter(_)));
            assert_eq!(steps[1], BuilderKind::RoomDrawer);
        }
    }
    assert!(saw_interior && saw_layout);
}

#[test]
fn shape_recipes_have_their_shape() {
    for seed in 0..20u64 {
        let mut rng = RandomNumberGenerator::seeded(seed);
        let mut chain = BuilderChain::new(1, 10, 10);
        random_shape_builder(&mut rng, &mut chain);
        assert!(!is_room_starter(chain.starter.unwrap()));
        let steps = &chain.builders;
        assert_eq!(steps.len(), 5);
        assert_eq!(steps[0], BuilderKind::AreaStartingPosition(XStart::CENTER, YStart::CENTER));
        assert_eq!(steps[1], BuilderKind::CullUnreachable);
        assert_eq!(steps[3], BuilderKind::VoronoiSpawning);
        assert_eq!(steps[4], BuilderKind::DistantExit);
    }
}

#[test]
fn start_positions_vary() {
    let mut seen = Vec::new();
    for seed in 0..40u64 {
        let mut rng = RandomNumberGenerator::seeded(seed);
        let p = random_start_position(&mut rng);
        if !seen.contains(&p) {
            seen.push(p);
        }
    }
    assert!(seen.len() > 3);
}

#[test]
fn snapshot_reveals_everything() {
    let mut chain = BuilderChain::new(1, 3, 2);
    chain.build_data.map.tiles[1] = TileType::Floor;
    chain.build_data.map.bloodstains.insert(2);
    chain.build_data.take_snapshot(false);
    assert!(chain.build_data.history.is_empty());
    chain.build_data.take_snapshot(true);
    assert_eq!(chain.build_data.history.len(), 1);
    let snap = &chain.build_data.history[0];
    assert!(snap.revealed_tiles.iter().all(|b| *b));
    assert_eq!(snap.tiles, chain.build_data.map.tiles);
    assert!(snap.bloodstains.contains(&2));
    assert!(chain.build_data.map.revealed_tiles.iter().all(|b| !*b));
}

#[test]
fn edge_border_builder_walls_the_edge() {
    let mut data = BuilderMap {
        spawn_list: Vec::new(),
        map: GameMap::new(1, 3, 3, "Test"),
        starting_position: None,
        rooms: None,
        corridors: None,
        history: Vec::new(),
        width: 3,
        height: 3,
    };
    for t in data.map.tiles.iter_mut() {
        *t = TileType::Floor;
    }
    let mut rng = RandomNumberGenerator::seeded(1);
    let mut b = EdgeBorderBuilder;
    b.build_map(&mut rng, &mut data);
    let walls = data.map.tiles.iter().filter(|t| **t == TileType::Wall).count();
    assert_eq!(walls, 8);
    assert_eq!(data.map.tiles[4], TileType::Floor);
}

#[test]
fn waveform_builder_constructs() {
    let _b: Box<WaveformCollapseBuilder> = WaveformCollapseBuilder::new();
}

#[test]
fn spawn_entities_places_entries() {
    let mut chain = BuilderChain::new(1, 4, 3);
    chain.build_data.map.tiles[6] = TileType::Floor;
    chain.build_data.spawn_list.push((6, "Goblin".to_string()));
    chain.build_data.spawn_list.push((1, "Orc".to_string()));
    let placements = chain.spawn_entities();
    assert_eq!(placements.len(), 2);
    assert_eq!((placements[0].0.x, placements[0].0.y, placements[0].1), (2, 1, true));
    assert_eq!((placements[1].0.x, placements[1].0.y, placements[1].1), (1, 0, false));
}

#[test]
fn tile_gallery_fills_rows_then_pages() {
    let slots = WaveformCollapseBuilder::gallery_layout(6, 8, 20, 20);
    assert_eq!(
        slots,
        vec![
            GallerySlot { x: 1, y: 1, page: 0 },
            GallerySlot { x: 10, y: 1, page: 0 },
            GallerySlot { x: 1, y: 10, page: 0 },
            GallerySlot { x: 10, y: 10, page: 0 },
            GallerySlot { x: 1, y: 1, page: 1 },
            GallerySlot { x: 10, y: 1, page: 1 },
        ]
    );
    assert!(WaveformCollapseBuilder::gallery_layout(0, 8, 20, 20).is_empty());
    // A pattern wider than the map gets a page of its own.
    let narrow = WaveformCollapseBuilder::gallery_layout(3, 8, 5, 5);
    let pages: Vec<usize> = narrow.iter().map(|s| s.page).collect();
    assert_eq!(pages, vec![0, 1, 2]);
}

#[test]
fn build_order_runs_the_starter_first() {
    let mut chain = BuilderChain::new(1, 3, 3);
    assert_eq!(chain.build_order(), None);
    chain.with(BuilderKind::DoorPlacement);
    chain.start_with(BuilderKind::Maze);
    chain.with(BuilderKind::EdgeBorder);
    assert_eq!(
        chain.build_order(),
        Some(vec![BuilderKind::Maze, BuilderKind::DoorPlacement, BuilderKind::EdgeBorder])
    );
}

#[test]
fn room_recipe_rolls_map_to_their_builders() {
    // Over many seeds, every room recipe's optional stages come only from the listed choices.
    for seed in 0..200u64 {
        let mut rng = RandomNumberGenerator::seeded(seed);
        let mut chain = BuilderChain::new(1, 10, 10);
        random_room_builder(&mut rng, &mut chain);
        let steps = &chain.builders;
        let n = steps.len();
        assert!(matches!(steps[n - 3], BuilderKind::RoomBasedStartingPosition | BuilderKind::AreaStartingPosition(_, _)));
        assert!(matches!(steps[n - 2], BuilderKind::RoomBasedStairs | BuilderKind::DistantExit));
        assert!(matches!(steps[n - 1], BuilderKind::RoomBasedSpawner | BuilderKind::VoronoiSpawning));
        let exploders = steps.iter().filter(|b| **b == BuilderKind::RoomExploder).count();
        let rounders = steps.iter().filter(|b| **b == BuilderKind::RoomCornerRounder).count();
        assert!(exploders + rounders <= 1);
    }
}
