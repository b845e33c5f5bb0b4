use rusted_battalions::terrain::{
    first_match, Adjacent, FrameInfo, Orientation, Terrain, TerrainClass, TerrainFlag, TerrainRule, TerrainTile,
    TileInfo, ANY, BRIDGE, EMPTY, GROUND, MOUNTAIN, PIPELINE, PIPES, PIPESEAM, PLAIN, REEF, RIVER, ROAD, SEA, SHOAL,
    WATER, WOOD,
};
use rusted_battalions::terrain_rules::{river_rules, sea_rules, shoal_rules, BORDER};
use rusted_battalions::tile::Tile;

fn all(flag: u32) -> Adjacent {
    let f = TerrainFlag(flag);
    Adjacent { up: f, down: f, left: f, right: f, up_left: f, up_right: f, down_left: f, down_right: f }
}

fn picture(x: u32, y: u32, frames: Option<(u32, u32)>) -> TileInfo {
    TileInfo {
        tile_x: x,
        tile_y: y,
        tile_width: 16,
        tile_height: 16,
        frame_info: frames.map(|(offset_y, frames)| FrameInfo { offset_y, frames }),
    }
}

fn class_of(c: char) -> TerrainClass {
    match c {
        'G' => TerrainClass::Grass,
        'M' => TerrainClass::Mountain { variant: 0 },
        'R' => TerrainClass::Road { ruins: false },
        'F' => TerrainClass::Forest,
        'O' => TerrainClass::Ocean,
        'V' => TerrainClass::River,
        'S' => TerrainClass::Shoal,
        _ => TerrainClass::Empty,
    }
}

fn map(rows: &[&str]) -> Terrain {
    let mut terrain = Terrain::new(rows[0].len() as u32, rows.len() as u32);
    for (y, row) in rows.iter().enumerate() {
        for (x, c) in row.chars().enumerate() {
            terrain.get_mut(x as u32, y as u32).class = class_of(c);
        }
    }
    terrain
}

#[test]
fn flags() {
    assert_eq!(WATER, 0xf81);
    assert_eq!(GROUND, 0xffff_f07e);
    assert_eq!(PIPES, 0x60);
    assert_eq!(BORDER, 0xb00);
    assert_eq!(ANY, u32::MAX);
    assert!(TerrainFlag(WATER).contains(TerrainFlag(SEA)));
    assert!(TerrainFlag(WATER).contains(TerrainFlag(EMPTY)));
    assert!(!TerrainFlag(WATER).contains(TerrainFlag(PLAIN)));
    assert!(TerrainFlag(GROUND).contains(TerrainFlag(ROAD)));
    assert!(!TerrainFlag(GROUND).contains(TerrainFlag(REEF)));
    assert_eq!(TerrainFlag(SEA).or(TerrainFlag(RIVER)), TerrainFlag(0x180));
    assert_eq!(TerrainFlag(0x180).and(TerrainFlag(RIVER)), TerrainFlag(RIVER));
    assert_eq!(TerrainFlag(WATER).not(), TerrainFlag(GROUND));
    assert_eq!(TerrainFlag::default(), TerrainFlag(EMPTY));
}

#[test]
fn flag_of_each_class() {
    let expected = [EMPTY, PLAIN, ROAD, BRIDGE, WOOD, MOUNTAIN, PIPELINE, PIPESEAM, SEA, RIVER, SHOAL, REEF];
    let classes = TerrainClass::all();
    assert_eq!(classes.len(), 12);
    for (class, flag) in classes.iter().zip(expected) {
        assert_eq!(TerrainFlag::from_tile(class), TerrainFlag(flag));
        assert_eq!(class.flag(), TerrainFlag(flag));
    }
    assert_eq!(TerrainFlag::from_tile(&TerrainClass::Road { ruins: true }), TerrainFlag(ROAD));
    assert_eq!(TerrainFlag::from_tile(&TerrainClass::Bridge { orientation: Orientation::Vertical }), TerrainFlag(BRIDGE));
}

#[test]
fn mountains_come_in_three_pictures() {
    assert_eq!(TerrainClass::random_mountain(0), TerrainClass::Mountain { variant: 0 });
    assert_eq!(TerrainClass::random_mountain(1), TerrainClass::Mountain { variant: 1 });
    assert_eq!(TerrainClass::random_mountain(2), TerrainClass::Mountain { variant: 2 });
    assert_eq!(TerrainClass::random_mountain(3), TerrainClass::Mountain { variant: 0 });
    assert_eq!(TerrainClass::random_mountain(u32::MAX), TerrainClass::Mountain { variant: 0 });
}

#[test]
fn tables() {
    assert_eq!(river_rules().len(), 12);
    assert_eq!(sea_rules().len(), 47);
    assert_eq!(shoal_rules().len(), 39);
    let first = river_rules()[0];
    assert_eq!((first.tile_x, first.tile_y), (7, 7));
    assert_eq!(first.up, TerrainFlag(GROUND | EMPTY));
    assert_eq!(first.down_right, TerrainFlag(ANY));
    let last = river_rules()[11];
    assert_eq!((last.tile_x, last.tile_y), (5, 5));
    assert_eq!(last.left, TerrainFlag(RIVER));
    assert_eq!(last.up_left, TerrainFlag(GROUND));
    let first = sea_rules()[0];
    assert_eq!((first.tile_x, first.tile_y), (26, 7));
    assert_eq!(first.up, TerrainFlag(GROUND));
    let block = TerrainRule::block_matches(TerrainFlag(ROAD), 12, 0);
    assert_eq!(block.len(), 16);
    assert_eq!((block[0].tile_x, block[0].tile_y), (12, 0));
    assert_eq!((block[15].tile_x, block[15].tile_y), (15, 3));
    assert_eq!(block[5].up, TerrainFlag(ROAD));
    assert_eq!(block[5].left, TerrainFlag(ROAD));
    assert_eq!(block[15].up, TerrainFlag(!ROAD));
    assert_eq!(block[0].up_left, TerrainFlag(ANY));
}

#[test]
fn the_first_rule_that_matches_decides() {
    let rules = river_rules();
    assert_eq!(first_match(&rules, &all(PLAIN)), Some(rules[0]));
    assert_eq!(first_match(&rules, &all(RIVER)), None);
    assert!(rules[0].matches(&all(PLAIN)));
    assert!(rules[0].matches(&all(EMPTY)));
    assert!(!rules[0].matches(&all(SEA)));
}

#[test]
fn pictures_of_water() {
    let water = Some((64, 4));
    assert_eq!(TileInfo::new_sea(&all(SEA)), picture(384, 80, water));
    assert_eq!(TileInfo::new_sea(&all(EMPTY)), picture(384, 80, water));
    assert_eq!(TileInfo::new_sea(&all(PLAIN)), picture(416, 112, water));
    let mut adjacent = all(SEA);
    adjacent.up = TerrainFlag(PLAIN);
    assert_eq!(TileInfo::new_sea(&adjacent), picture(384, 64, water));
    assert_eq!(TileInfo::new_river(&all(PLAIN)), picture(112, 112, water));
    assert_eq!(TileInfo::new_river(&all(RIVER)), TileInfo::error());
    let mut adjacent = all(PLAIN);
    adjacent.up = TerrainFlag(RIVER);
    adjacent.down = TerrainFlag(RIVER);
    assert_eq!(TileInfo::new_river(&adjacent), picture(112, 80, water));
    let mut adjacent = all(PLAIN);
    adjacent.left = TerrainFlag(RIVER);
    adjacent.right = TerrainFlag(RIVER);
    assert_eq!(TileInfo::new_river(&adjacent), picture(80, 112, water));
    assert_eq!(TileInfo::new_shoal(&all(SEA)), TileInfo::error());
    assert_eq!(TileInfo::new_shoal(&all(PLAIN)), picture(176, 112, water));
    let mut adjacent = all(SEA);
    adjacent.up = TerrainFlag(PLAIN);
    assert_eq!(TileInfo::new_shoal(&adjacent), picture(208, 64, water));
}

#[test]
fn pictures_of_roads_and_pipes() {
    assert_eq!(TileInfo::new_road(&all(PLAIN), false), picture(240, 48, None));
    assert_eq!(TileInfo::new_road(&all(EMPTY), false), picture(240, 48, None));
    assert_eq!(TileInfo::new_road(&all(ROAD), false), picture(208, 16, None));
    let mut adjacent = all(PLAIN);
    adjacent.left = TerrainFlag(ROAD);
    adjacent.right = TerrainFlag(ROAD);
    assert_eq!(TileInfo::new_road(&adjacent, false), picture(208, 48, None));
    let mut adjacent = all(PLAIN);
    adjacent.up = TerrainFlag(ROAD);
    adjacent.down = TerrainFlag(ROAD);
    assert_eq!(TileInfo::new_road(&adjacent, true), picture(304, 16, None));
    let mut adjacent = all(PLAIN);
    adjacent.left = TerrainFlag(PIPELINE);
    adjacent.right = TerrainFlag(PIPESEAM);
    assert_eq!(TileInfo::new_pipe(&adjacent), picture(16, 112, Some((64, 2))));
}

#[test]
fn pictures_of_pipe_seams() {
    let mut upright = all(PLAIN);
    upright.up = TerrainFlag(PIPELINE);
    upright.down = TerrainFlag(PIPESEAM);
    assert_eq!(TileInfo::new_pipeseam(&upright, true), picture(128, 0, None));
    assert_eq!(TileInfo::new_pipeseam(&upright, false), picture(144, 0, None));
    assert_eq!(TileInfo::new_pipeseam(&all(PLAIN), true), picture(128, 16, None));
    assert_eq!(TileInfo::new_pipeseam(&all(PLAIN), false), picture(144, 16, Some((16, 2))));
}

#[test]
fn pictures_of_the_other_classes() {
    let plain = all(PLAIN);
    let mut beside = all(PLAIN);
    beside.left = TerrainFlag(MOUNTAIN);
    assert_eq!(TileInfo::error(), picture(16, 0, None));
    assert_eq!(TileInfo::new(&TerrainClass::Empty, &plain), TileInfo::error());
    assert_eq!(TileInfo::new(&TerrainClass::Grass, &plain), picture(32, 0, None));
    assert_eq!(TileInfo::new(&TerrainClass::Grass, &beside), picture(48, 0, None));
    let tall = |x: u32| TileInfo { tile_height: 32, ..picture(x, 16, None) };
    assert_eq!(TileInfo::new(&TerrainClass::Forest, &plain), tall(16));
    assert_eq!(TileInfo::new(&TerrainClass::Forest, &beside), tall(32));
    assert_eq!(TileInfo::new(&TerrainClass::Mountain { variant: 0 }, &plain), tall(64));
    assert_eq!(TileInfo::new(&TerrainClass::Mountain { variant: 2 }, &plain), tall(96));
    assert_eq!(TileInfo::new(&TerrainClass::Reef, &plain), picture(384, 0, Some((16, 4))));
    assert_eq!(TileInfo::new(&TerrainClass::Bridge { orientation: Orientation::Horizontal }, &plain), picture(336, 48, None));
    assert_eq!(TileInfo::new(&TerrainClass::Bridge { orientation: Orientation::Vertical }, &plain), picture(368, 16, None));
    assert_eq!(TileInfo::new(&TerrainClass::Ocean, &all(SEA)), picture(384, 80, Some((64, 4))));
    assert_eq!(TileInfo::new(&TerrainClass::Pipeline, &plain), TileInfo::new_pipe(&plain));
    assert_eq!(TileInfo::new(&TerrainClass::Shoal, &plain), TileInfo::new_shoal(&plain));
    assert_eq!(TileInfo::new(&TerrainClass::River, &plain), TileInfo::new_river(&plain));
    assert_eq!(TileInfo::new(&TerrainClass::Road { ruins: true }, &plain), TileInfo::new_road(&plain, true));
    assert_eq!(TileInfo::new(&TerrainClass::Pipeseam { destroyed: true }, &plain), TileInfo::new_pipeseam(&plain, true));
}

#[test]
fn new_map_is_empty() {
    let terrain = Terrain::new(3, 2);
    assert_eq!(terrain.len(), 6);
    assert_eq!((terrain.width, terrain.height), (3, 2));
    assert_eq!(*terrain.get(0, 0), TerrainTile::empty(0, 0));
    assert_eq!(*terrain.get(2, 1), TerrainTile::empty(2, 1));
    assert_eq!(terrain.get_checked(1, 1), Some(&TerrainTile::empty(1, 1)));
    assert_eq!(terrain.get_checked(0, 2), None);
    assert_eq!(terrain.get_checked(3, 2), None);
    // A place beyond the last column is held where the next row begins.
    assert_eq!(terrain.get_checked(3, 0), Some(&TerrainTile::empty(0, 1)));
    let order: Vec<(u32, u32)> = terrain.iter().iter().map(|t| (t.x, t.y)).collect();
    assert_eq!(order, vec![(0, 0), (1, 0), (2, 0), (0, 1), (1, 1), (2, 1)]);
    let back: Vec<(u32, u32)> = terrain.iter_rev().iter().map(|t| (t.x, t.y)).collect();
    assert_eq!(back, vec![(2, 1), (1, 1), (0, 1), (2, 0), (1, 0), (0, 0)]);
    assert_eq!(Terrain::new(0, 5).len(), 0);
    assert_eq!(TerrainTile::new(4, 5, TerrainClass::Reef).class, TerrainClass::Reef);
    assert_eq!(TerrainTile::new(4, 5, TerrainClass::Reef).info, TileInfo::error());
}

#[test]
fn tiles_choose_their_pictures_from_their_neighbours() {
    let mut sea = map(&["OOO", "OOO", "OOO"]);
    sea.update_tiles();
    for tile in sea.iter().iter() {
        assert_eq!(tile.info, picture(384, 80, Some((64, 4))));
        assert_eq!(tile.class, TerrainClass::Ocean);
    }
    let mut land = map(&["GMG", "RRO", "FVS"]);
    land.update_tiles();
    let tall = |x: u32| TileInfo { tile_height: 32, ..picture(x, 16, None) };
    let expected = vec![
        picture(32, 0, None),
        tall(64),
        picture(48, 0, None),
        picture(192, 48, None),
        picture(224, 48, None),
        TileInfo::error(),
        tall(16),
        TileInfo::error(),
        TileInfo::error(),
    ];
    let found: Vec<TileInfo> = land.iter().iter().map(|t| t.info).collect();
    assert_eq!(found, expected);
    let places: Vec<(u32, u32)> = land.iter().iter().map(|t| (t.x, t.y)).collect();
    assert_eq!(places[5], (2, 1));
    let mut island = map(&["GGG", "GOG", "GGG"]);
    island.update_tiles();
    assert_eq!(island.get(1, 1).info, picture(416, 112, Some((64, 4))));
}

#[test]
fn updating_twice_changes_nothing() {
    let mut land = map(&["GMG", "RRO", "FVS"]);
    land.update_tiles();
    let once: Vec<TerrainTile> = land.iter().clone();
    land.update_tiles();
    assert_eq!(*land.iter(), once);
}

#[test]
fn frames_of_a_picture() {
    let sea = picture(384, 80, Some((64, 4)));
    assert!(sea.frame_fits(3));
    assert_eq!(sea.tile(0), Tile { start_x: 384, start_y: 80, end_x: 400, end_y: 96 });
    assert_eq!(sea.tile(2), Tile { start_x: 384, start_y: 208, end_x: 400, end_y: 224 });
    let forest = TileInfo { tile_height: 32, ..picture(16, 16, None) };
    assert_eq!(forest.tile(0), Tile { start_x: 16, start_y: 16, end_x: 32, end_y: 48 });
    assert_eq!(forest.tile(7), forest.tile(0));
    let far = picture(u32::MAX, 0, None);
    assert!(!far.frame_fits(0));
    let deep = picture(0, 16, Some((u32::MAX, 2)));
    assert!(deep.frame_fits(0));
    assert!(!deep.frame_fits(1));
}
