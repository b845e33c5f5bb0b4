use rusted_battalions::game::{
    animation_loop, pendulum, unit_tile, BuildingClass, ExplosionAnimation, MoveDirection, Nation, UnitAnimation,
    UnitAppearance, UnitClass, UnitDirection, BUILDING_TILE_HEIGHT, BUILDING_TILE_WIDTH,
};
use rusted_battalions::number::UNIT;
use rusted_battalions::tile::{QuadrantGrid, Tile};

#[test]
fn nations() {
    assert_eq!(
        Nation::all(),
        vec![Nation::OrangeStar, Nation::BlueMoon, Nation::GreenEarth, Nation::YellowComet, Nation::BlackHole]
    );
}

#[test]
fn rows_of_the_units() {
    assert_eq!(UnitClass::all().len(), 26);
    assert_eq!(UnitClass::Infantry.tile_y(&Nation::OrangeStar), 0);
    assert_eq!(UnitClass::Infantry.tile_y(&Nation::BlackHole), 4);
    assert_eq!(UnitClass::Mech.tile_y(&Nation::OrangeStar), 5);
    assert_eq!(UnitClass::Mech.tile_y(&Nation::YellowComet), 8);
    assert_eq!(UnitClass::Recon.tile_y(&Nation::BlueMoon), 10);
    assert_eq!(UnitClass::APC.tile_y(&Nation::BlueMoon), 15);
    assert_eq!(UnitClass::Oozium.tile_y(&Nation::BlueMoon), 21);
    assert_eq!(UnitClass::Carrier.tile_y(&Nation::GreenEarth), 33);
    let mut rows: Vec<u32> = UnitClass::all().iter().map(|c| c.tile_y(&Nation::OrangeStar)).collect();
    rows.sort();
    rows.dedup();
    assert_eq!(rows.len(), 26);
}

#[test]
fn explosions_of_the_units() {
    assert_eq!(UnitClass::Infantry.explosion_animation(), ExplosionAnimation::Land);
    assert_eq!(UnitClass::Neotank.explosion_animation(), ExplosionAnimation::Land);
    assert_eq!(UnitClass::BlackBomb.explosion_animation(), ExplosionAnimation::Air);
    assert_eq!(UnitClass::TCopter.explosion_animation(), ExplosionAnimation::Air);
    assert_eq!(UnitClass::BlackBoat.explosion_animation(), ExplosionAnimation::Sea);
    assert_eq!(UnitClass::Submarine.explosion_animation(), ExplosionAnimation::Sea);
    assert_eq!(UnitClass::MegaTank.explosion_animation(), ExplosionAnimation::Mega);
    assert_eq!(UnitClass::Piperunner.explosion_animation(), ExplosionAnimation::Mega);
    assert_eq!(UnitClass::Oozium.explosion_animation(), ExplosionAnimation::Mega);
}

#[test]
fn measures_of_the_explosions() {
    let land = ExplosionAnimation::Land.info();
    assert_eq!((land.width, land.height), (2 * UNIT, 2 * UNIT));
    assert_eq!((land.offset_x, land.offset_y), (-UNIT / 2, -UNIT));
    assert_eq!((land.tile_x, land.tile_y, land.tile_width, land.tile_height, land.frames), (0, 0, 32, 32, 9));
    let air = ExplosionAnimation::Air.info();
    assert_eq!((air.offset_x, air.offset_y), (-375_000, -375_000));
    assert_eq!((air.tile_y, air.frames), (32, 9));
    let sea = ExplosionAnimation::Sea.info();
    assert_eq!((sea.tile_y, sea.frames), (64, 7));
    let mega = ExplosionAnimation::Mega.info();
    assert_eq!((mega.width, mega.height), (7 * UNIT, 3 * UNIT));
    assert_eq!((mega.offset_x, mega.offset_y), (-3 * UNIT, -2 * UNIT));
    assert_eq!((mega.tile_y, mega.tile_width, mega.tile_height, mega.frames), (96, 112, 48, 12));
}

#[test]
fn frames_of_an_explosion() {
    let land = ExplosionAnimation::Land;
    assert_eq!(land.tile(0), Tile { start_x: 0, start_y: 0, end_x: 32, end_y: 32 });
    assert_eq!(land.tile(-5), Tile { start_x: 0, start_y: 0, end_x: 32, end_y: 32 });
    assert_eq!(land.tile(UNIT / 2), Tile { start_x: 128, start_y: 0, end_x: 160, end_y: 32 });
    assert_eq!(land.tile(UNIT), Tile { start_x: 256, start_y: 0, end_x: 288, end_y: 32 });
    assert_eq!(land.tile(i64::MAX), Tile { start_x: 256, start_y: 0, end_x: 288, end_y: 32 });
    let mega = ExplosionAnimation::Mega;
    assert_eq!(mega.tile(UNIT / 4), Tile { start_x: 336, start_y: 96, end_x: 448, end_y: 144 });
}

#[test]
fn animations_of_the_units() {
    assert!(UnitAnimation::Idle.is_idle());
    assert!(!UnitAnimation::Up.is_idle());
    assert_eq!(UnitAnimation::Idle.tile_x(), 0);
    assert_eq!(UnitAnimation::Left.tile_x(), 3);
    assert_eq!(UnitAnimation::Right.tile_x(), 3);
    assert_eq!(UnitAnimation::Down.tile_x(), 6);
    assert_eq!(UnitAnimation::Up.tile_x(), 9);
    assert_eq!(UnitAnimation::Idle.direction(&Nation::OrangeStar), UnitDirection::Right);
    assert_eq!(UnitAnimation::Idle.direction(&Nation::GreenEarth), UnitDirection::Right);
    assert_eq!(UnitAnimation::Idle.direction(&Nation::BlueMoon), UnitDirection::Left);
    assert_eq!(UnitAnimation::Idle.direction(&Nation::BlackHole), UnitDirection::Left);
    assert_eq!(UnitAnimation::Right.direction(&Nation::BlueMoon), UnitDirection::Right);
    assert_eq!(UnitAnimation::Up.direction(&Nation::OrangeStar), UnitDirection::Left);
    assert_eq!(MoveDirection::Up.animation(), UnitAnimation::Up);
    assert_eq!(MoveDirection::Down.animation(), UnitAnimation::Down);
    assert_eq!(MoveDirection::Left.animation(), UnitAnimation::Left);
    assert_eq!(MoveDirection::Right.animation(), UnitAnimation::Right);
    assert_eq!(UnitAppearance::DualStrikeSmall.unit_tile_size(), 32);
    assert_eq!(UnitAppearance::DualStrikeBig.unit_tile_size(), 64);
    assert_eq!(UnitAppearance::default(), UnitAppearance::DualStrikeBig);
}

#[test]
fn buildings() {
    assert_eq!(BuildingClass::all().len(), 13);
    assert!(BuildingClass::HQ1.can_have_nation());
    assert!(BuildingClass::Lab.can_have_nation());
    assert!(!BuildingClass::MissileSilo.can_have_nation());
    assert!(!BuildingClass::MissileSiloEmpty.can_have_nation());
    assert_eq!((BUILDING_TILE_WIDTH, BUILDING_TILE_HEIGHT), (16, 32));
    assert_eq!(BuildingClass::City.tile_x(true, true, 3), 16);
    assert_eq!(BuildingClass::City.tile_x(false, true, 0), 32);
    assert_eq!(BuildingClass::City.tile_x(false, true, 3), 80);
    assert_eq!(BuildingClass::City.tile_x(false, false, 3), 0);
    assert_eq!(BuildingClass::MissileSilo.tile_x(false, true, 3), 0);
}

#[test]
fn animation_frames() {
    let swing: Vec<u32> = (0..10).map(|step| pendulum(step, 4)).collect();
    assert_eq!(swing, vec![0, 1, 2, 3, 2, 1, 0, 1, 2, 3]);
    assert_eq!(pendulum(17, 1), 0);
    assert_eq!(pendulum(3, 2), 1);
    let turn: Vec<u32> = (0..9).map(|step| animation_loop(step, 4)).collect();
    assert_eq!(turn, vec![0, 1, 2, 3, 0, 1, 2, 3, 0]);
}

#[test]
fn tiles_mirror() {
    let tile = Tile { start_x: 1, start_y: 2, end_x: 3, end_y: 4 };
    assert_eq!(tile.mirror_x(), Tile { start_x: 3, start_y: 2, end_x: 1, end_y: 4 });
    assert_eq!(tile.mirror_y(), Tile { start_x: 1, start_y: 4, end_x: 3, end_y: 2 });
    assert_eq!(tile.mirror_x().mirror_x(), tile);
    assert_eq!(tile.mirror_x().mirror_y(), tile.mirror_y().mirror_x());
}

#[test]
fn nine_tiles_of_a_border() {
    let grid = QuadrantGrid::equal_size(10, 20, 4, 8);
    assert_eq!(grid.left_width, 4);
    assert_eq!(grid.center_height, 8);
    let q = grid.quadrants();
    assert_eq!(q.up_left, Tile { start_x: 10, start_y: 20, end_x: 14, end_y: 28 });
    assert_eq!(q.up, Tile { start_x: 14, start_y: 20, end_x: 18, end_y: 28 });
    assert_eq!(q.up_right, Tile { start_x: 18, start_y: 20, end_x: 22, end_y: 28 });
    assert_eq!(q.left, Tile { start_x: 10, start_y: 28, end_x: 14, end_y: 36 });
    assert_eq!(q.center, Tile { start_x: 14, start_y: 28, end_x: 18, end_y: 36 });
    assert_eq!(q.right, Tile { start_x: 18, start_y: 28, end_x: 22, end_y: 36 });
    assert_eq!(q.down_left, Tile { start_x: 10, start_y: 36, end_x: 14, end_y: 44 });
    assert_eq!(q.down, Tile { start_x: 14, start_y: 36, end_x: 18, end_y: 44 });
    assert_eq!(q.down_right, Tile { start_x: 18, start_y: 36, end_x: 22, end_y: 44 });
    let uneven = QuadrantGrid {
        start_x: 0,
        start_y: 0,
        up_height: 1,
        down_height: 2,
        left_width: 3,
        right_width: 4,
        center_width: 5,
        center_height: 6,
    };
    assert_eq!(uneven.quadrants().down_right, Tile { start_x: 8, start_y: 7, end_x: 12, end_y: 9 });
}

#[test]
fn pictures_of_the_units() {
    let tile = unit_tile(&UnitClass::Infantry, &Nation::OrangeStar, &UnitAnimation::Idle, 1, &UnitAppearance::DualStrikeBig);
    assert_eq!(tile, Tile { start_x: 128, start_y: 0, end_x: 64, end_y: 64 });
    let tile = unit_tile(&UnitClass::Tank, &Nation::BlueMoon, &UnitAnimation::Up, 2, &UnitAppearance::DualStrikeSmall);
    assert_eq!(tile, Tile { start_x: 352, start_y: 352, end_x: 384, end_y: 384 });
    let tile = unit_tile(&UnitClass::Mech, &Nation::BlackHole, &UnitAnimation::Right, 0, &UnitAppearance::DualStrikeSmall);
    assert_eq!(tile, Tile { start_x: 128, start_y: 288, end_x: 96, end_y: 320 });
    assert_eq!(Nation::OrangeStar.unit_palette(false), 0);
    assert_eq!(Nation::BlueMoon.unit_palette(false), 2);
    assert_eq!(Nation::BlackHole.unit_palette(true), 9);
    assert_eq!(Nation::building_palette(None), 0);
    assert_eq!(Nation::building_palette(Some(Nation::OrangeStar)), 0);
    assert_eq!(Nation::building_palette(Some(Nation::YellowComet)), 3);
    assert_eq!(Nation::building_palette(Some(Nation::BlackHole)), 4);
}

#[test]
fn pictures_of_the_buildings() {
    assert_eq!(BuildingClass::HQ1.tile_y(), 0);
    assert_eq!(BuildingClass::Port.tile_y(), 256);
    assert_eq!(BuildingClass::MissileSiloEmpty.tile_y(), 384);
    assert_eq!(BuildingClass::Port.tile(32), Tile { start_x: 32, start_y: 256, end_x: 48, end_y: 288 });
    assert_eq!(BuildingClass::Port.fog_tile(), Tile { start_x: 16, start_y: 256, end_x: 32, end_y: 288 });
}
