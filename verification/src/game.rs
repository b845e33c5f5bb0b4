//! The nations, units, buildings and explosions of the game, and where their
//! pictures are in the spritesheets.

use vstd::prelude::*;
use crate::number::{Percentage, UNIT};
use crate::tile::Tile;

verus! {

/// The five nations.
#[derive(Clone, Copy, Debug, PartialEq, Eq, Structural)]
pub enum Nation {
    OrangeStar,
    BlueMoon,
    GreenEarth,
    YellowComet,
    BlackHole,
}

impl Nation {
    /// Every nation, in the order of their pictures.
    pub fn all() -> (r: Vec<Self>)
        ensures
            r@ == seq![Nation::OrangeStar, Nation::BlueMoon, Nation::GreenEarth, Nation::YellowComet, Nation::BlackHole],
    {
        let r = vec![Nation::OrangeStar, Nation::BlueMoon, Nation::GreenEarth, Nation::YellowComet, Nation::BlackHole];
        proof {
            assert(r@ =~= seq![Nation::OrangeStar, Nation::BlueMoon, Nation::GreenEarth, Nation::YellowComet, Nation::BlackHole]);
        }
        r
    }

    /// The palette of the nation's units: each nation has two, the second
    /// for a unit that has waited.
    pub open spec fn unit_palette_spec(self, waited: bool) -> int {
        2 * self.index_spec() + if waited { 1int } else { 0int }
    }

    /// Returns the palette of one of the nation's units.
    pub fn unit_palette(&self, waited: bool) -> (r: u32)
        ensures
            r == self.unit_palette_spec(waited),
    {
        let palette: u32 = match self {
            Nation::OrangeStar => 0,
            Nation::BlueMoon => 2,
            Nation::GreenEarth => 4,
            Nation::YellowComet => 6,
            Nation::BlackHole => 8,
        };
        if waited {
            palette + 1
        } else {
            palette
        }
    }

    /// The palette of a building of `nation`; a building that nobody owns
    /// has the first.
    pub open spec fn building_palette_spec(nation: Option<Nation>) -> int {
        match nation {
            None => 0,
            Some(n) => n.index_spec(),
        }
    }

    /// Returns the palette of a building.
    pub fn building_palette(nation: Option<Nation>) -> (r: u32)
        ensures
            r == Self::building_palette_spec(nation),
    {
        match nation {
            None => 0,
            Some(Nation::OrangeStar) => 0,
            Some(Nation::BlueMoon) => 1,
            Some(Nation::GreenEarth) => 2,
            Some(Nation::YellowComet) => 3,
            Some(Nation::BlackHole) => 4,
        }
    }

    /// The place of the nation among the nations.
    pub open spec fn index_spec(self) -> int {
        match self {
            Nation::OrangeStar => 0,
            Nation::BlueMoon => 1,
            Nation::GreenEarth => 2,
            Nation::YellowComet => 3,
            Nation::BlackHole => 4,
        }
    }
}

/// How a unit blows up.
#[derive(Clone, Copy, Debug, PartialEq, Eq, Structural)]
pub enum ExplosionAnimation {
    Land,
    Air,
    Sea,
    Mega,
}

/// The size and place of an explosion, in tiles of the map, and its frames
/// in the spritesheet, in pixels.
#[derive(Clone, Copy, Debug, PartialEq, Eq, Structural)]
pub struct ExplosionInfo {
    pub width: Percentage,
    pub height: Percentage,
    pub offset_x: Percentage,
    pub offset_y: Percentage,
    pub tile_x: u32,
    pub tile_y: u32,
    pub tile_width: u32,
    pub tile_height: u32,
    pub frames: u32,
}

impl ExplosionAnimation {
    /// The measures of the explosion.
    pub open spec fn info_spec(self) -> ExplosionInfo {
        match self {
            ExplosionAnimation::Land => ExplosionInfo {
                width: (2 * UNIT) as i64,
                height: (2 * UNIT) as i64,
                offset_x: -500_000i64,
                offset_y: (-UNIT) as i64,
                tile_x: 0,
                tile_y: 0,
                tile_width: 32,
                tile_height: 32,
                frames: 9,
            },
            ExplosionAnimation::Air => ExplosionInfo {
                width: (2 * UNIT) as i64,
                height: (2 * UNIT) as i64,
                offset_x: -375_000i64,
                offset_y: -375_000i64,
                tile_x: 0,
                tile_y: 32,
                tile_width: 32,
                tile_height: 32,
                frames: 9,
            },
            ExplosionAnimation::Sea => ExplosionInfo {
                width: (2 * UNIT) as i64,
                height: (2 * UNIT) as i64,
                offset_x: -500_000i64,
                offset_y: (-UNIT) as i64,
                tile_x: 0,
                tile_y: 64,
                tile_width: 32,
                tile_height: 32,
                frames: 7,
            },
            ExplosionAnimation::Mega => ExplosionInfo {
                width: (7 * UNIT) as i64,
                height: (3 * UNIT) as i64,
                offset_x: (-3 * UNIT) as i64,
                offset_y: (-2 * UNIT) as i64,
                tile_x: 0,
                tile_y: 96,
                tile_width: 112,
                tile_height: 48,
                frames: 12,
            },
        }
    }

    /// Returns the measures of the explosion.
    pub fn info(&self) -> (r: ExplosionInfo)
        ensures
            r == self.info_spec(),
            1 <= r.frames <= 12,
            r.tile_x + r.tile_width * r.frames <= 1344,
            r.tile_y + r.tile_height <= 144,
    {
        match self {
            ExplosionAnimation::Land => ExplosionInfo {
                width: 2 * UNIT,
                height: 2 * UNIT,
                offset_x: -500_000,
                offset_y: -UNIT,
                tile_x: 0,
                tile_y: 0,
                tile_width: 32,
                tile_height: 32,
                frames: 9,
            },
            ExplosionAnimation::Air => ExplosionInfo {
                width: 2 * UNIT,
                height: 2 * UNIT,
                offset_x: -375_000,
                offset_y: -375_000,
                tile_x: 0,
                tile_y: 32,
                tile_width: 32,
                tile_height: 32,
                frames: 9,
            },
            ExplosionAnimation::Sea => ExplosionInfo {
                width: 2 * UNIT,
                height: 2 * UNIT,
                offset_x: -500_000,
                offset_y: -UNIT,
                tile_x: 0,
                tile_y: 64,
                tile_width: 32,
                tile_height: 32,
                frames: 7,
            },
            ExplosionAnimation::Mega => ExplosionInfo {
                width: 7 * UNIT,
                height: 3 * UNIT,
                offset_x: -3 * UNIT,
                offset_y: -2 * UNIT,
                tile_x: 0,
                tile_y: 96,
                tile_width: 112,
                tile_height: 48,
                frames: 12,
            },
        }
    }

    /// The frame that is shown when `percent` of the explosion has passed:
    /// the frames share the time evenly, and the last one stays.
    pub open spec fn frame_spec(self, percent: Percentage) -> int {
        let frames = self.info_spec().frames as int;
        let frame = (percent * frames) / (UNIT as int);
        if percent <= 0 {
            0
        } else if frame > frames - 1 {
            frames - 1
        } else {
            frame
        }
    }

    /// The picture of the explosion when `percent` of it has passed.
    pub open spec fn tile_spec(self, percent: Percentage) -> Tile {
        let info = self.info_spec();
        let start_x = info.tile_x + info.tile_width * self.frame_spec(percent);
        Tile {
            start_x: start_x as u32,
            start_y: info.tile_y,
            end_x: (start_x + info.tile_width) as u32,
            end_y: (info.tile_y + info.tile_height) as u32,
        }
    }

    /// Chooses the picture of the explosion for a moment of its course.
    pub fn tile(&self, percent: Percentage) -> (r: Tile)
        ensures
            r == self.tile_spec(percent),
    {
        let info = self.info();
        let last: u32 = info.frames - 1;
        let frame: u32 = if percent <= 0 {
            0
        } else {
            assert(0 <= percent * info.frames <= 12 * 0x7fff_ffff_ffff_ffff) by (nonlinear_arith)
                requires
                    0 < percent <= 0x7fff_ffff_ffff_ffff,
                    1 <= info.frames <= 12,
            ;
            let passed: i128 = (percent as i128 * info.frames as i128) / (UNIT as i128);
            if passed > last as i128 {
                last
            } else {
                passed as u32
            }
        };
        assert(info.tile_width * frame <= info.tile_width * info.frames) by (nonlinear_arith)
            requires
                frame <= info.frames,
        ;
        let start_x = info.tile_x + info.tile_width * frame;
        Tile {
            start_x,
            start_y: info.tile_y,
            end_x: start_x + info.tile_width,
            end_y: info.tile_y + info.tile_height,
        }
    }
}

/// The kinds of unit.
#[derive(Clone, Copy, Debug, PartialEq, Eq, Structural)]
pub enum UnitClass {
    Infantry,
    Mech,
    Recon,
    APC,
    Artillery,
    Tank,
    AntiAir,
    Missile,
    Rocket,
    MediumTank,
    Piperunner,
    Neotank,
    MegaTank,
    BCopter,
    TCopter,
    Fighter,
    Bomber,
    Stealth,
    Battleship,
    Cruiser,
    Submarine,
    Lander,
    Carrier,
    BlackBoat,
    BlackBomb,
    Oozium,
}

impl UnitClass {
    /// Every kind of unit.
    pub open spec fn all_spec() -> Seq<Self> {
        seq![
            UnitClass::Infantry,
            UnitClass::Mech,
            UnitClass::Recon,
            UnitClass::APC,
            UnitClass::Artillery,
            UnitClass::Tank,
            UnitClass::AntiAir,
            UnitClass::Missile,
            UnitClass::Rocket,
            UnitClass::MediumTank,
            UnitClass::Piperunner,
            UnitClass::Neotank,
            UnitClass::MegaTank,
            UnitClass::BCopter,
            UnitClass::TCopter,
            UnitClass::Fighter,
            UnitClass::Bomber,
            UnitClass::Stealth,
            UnitClass::Battleship,
            UnitClass::Cruiser,
            UnitClass::Submarine,
            UnitClass::Lander,
            UnitClass::Carrier,
            UnitClass::BlackBoat,
            UnitClass::BlackBomb,
            UnitClass::Oozium,
        ]
    }

    /// Returns every kind of unit.
    pub fn all() -> (r: Vec<Self>)
        ensures
            r@ == Self::all_spec(),
    {
        let r = vec![
            UnitClass::Infantry,
            UnitClass::Mech,
            UnitClass::Recon,
            UnitClass::APC,
            UnitClass::Artillery,
            UnitClass::Tank,
            UnitClass::AntiAir,
            UnitClass::Missile,
            UnitClass::Rocket,
            UnitClass::MediumTank,
            UnitClass::Piperunner,
            UnitClass::Neotank,
            UnitClass::MegaTank,
            UnitClass::BCopter,
            UnitClass::TCopter,
            UnitClass::Fighter,
            UnitClass::Bomber,
            UnitClass::Stealth,
            UnitClass::Battleship,
            UnitClass::Cruiser,
            UnitClass::Submarine,
            UnitClass::Lander,
            UnitClass::Carrier,
            UnitClass::BlackBoat,
            UnitClass::BlackBomb,
            UnitClass::Oozium,
        ];
        proof {
            assert(r@ =~= Self::all_spec());
        }
        r
    }

    /// The row of the unit's pictures in the spritesheet. Only the soldiers
    /// have a row for each nation.
    pub open spec fn tile_y_spec(self, nation: Nation) -> int {
        match self {
            UnitClass::Infantry => nation.index_spec(),
            UnitClass::Mech => 5 + nation.index_spec(),
            UnitClass::Recon => 10,
            UnitClass::Tank => 11,
            UnitClass::MediumTank => 12,
            UnitClass::Neotank => 13,
            UnitClass::MegaTank => 14,
            UnitClass::APC => 15,
            UnitClass::AntiAir => 16,
            UnitClass::Artillery => 17,
            UnitClass::Rocket => 18,
            UnitClass::Missile => 19,
            UnitClass::Piperunner => 20,
            UnitClass::Oozium => 21,
            UnitClass::Fighter => 22,
            UnitClass::Bomber => 23,
            UnitClass::BlackBomb => 24,
            UnitClass::Stealth => 25,
            UnitClass::BCopter => 26,
            UnitClass::TCopter => 27,
            UnitClass::Battleship => 28,
            UnitClass::Cruiser => 29,
            UnitClass::Submarine => 30,
            UnitClass::Lander => 31,
            UnitClass::BlackBoat => 32,
            UnitClass::Carrier => 33,
        }
    }

    /// Returns the row of the unit's pictures in the spritesheet.
    pub fn tile_y(&self, nation: &Nation) -> (r: u32)
        ensures
            r == self.tile_y_spec(*nation),
            r <= 33,
    {
        match self {
            UnitClass::Infantry => match nation {
                Nation::OrangeStar => 0,
                Nation::BlueMoon => 1,
                Nation::GreenEarth => 2,
                Nation::YellowComet => 3,
                Nation::BlackHole => 4,
            },
            UnitClass::Mech => match nation {
                Nation::OrangeStar => 5,
                Nation::BlueMoon => 6,
                Nation::GreenEarth => 7,
                Nation::YellowComet => 8,
                Nation::BlackHole => 9,
            },
            UnitClass::Recon => 10,
            UnitClass::Tank => 11,
            UnitClass::MediumTank => 12,
            UnitClass::Neotank => 13,
            UnitClass::MegaTank => 14,
            UnitClass::APC => 15,
            UnitClass::AntiAir => 16,
            UnitClass::Artillery => 17,
            UnitClass::Rocket => 18,
            UnitClass::Missile => 19,
            UnitClass::Piperunner => 20,
            UnitClass::Oozium => 21,
            UnitClass::Fighter => 22,
            UnitClass::Bomber => 23,
            UnitClass::BlackBomb => 24,
            UnitClass::Stealth => 25,
            UnitClass::BCopter => 26,
            UnitClass::TCopter => 27,
            UnitClass::Battleship => 28,
            UnitClass::Cruiser => 29,
            UnitClass::Submarine => 30,
            UnitClass::Lander => 31,
            UnitClass::BlackBoat => 32,
            UnitClass::Carrier => 33,
        }
    }

    /// How a unit of this kind blows up: by where it moves, but the largest
    /// machines, and the Oozium, in a way of their own.
    pub open spec fn explosion_animation_spec(self) -> ExplosionAnimation {
        match self {
            UnitClass::Infantry | UnitClass::Mech | UnitClass::Recon | UnitClass::APC
            | UnitClass::Artillery | UnitClass::Tank | UnitClass::AntiAir | UnitClass::Missile
            | UnitClass::Rocket | UnitClass::MediumTank | UnitClass::Neotank => ExplosionAnimation::Land,
            UnitClass::BCopter | UnitClass::TCopter | UnitClass::Fighter | UnitClass::Bomber
            | UnitClass::Stealth | UnitClass::BlackBomb => ExplosionAnimation::Air,
            UnitClass::Battleship | UnitClass::Cruiser | UnitClass::Submarine | UnitClass::Lander
            | UnitClass::Carrier | UnitClass::BlackBoat => ExplosionAnimation::Sea,
            UnitClass::MegaTank | UnitClass::Piperunner | UnitClass::Oozium => ExplosionAnimation::Mega,
        }
    }

    /// Returns how a unit of this kind blows up.
    pub fn explosion_animation(&self) -> (r: ExplosionAnimation)
        ensures
            r == self.explosion_animation_spec(),
    {
        match self {
            UnitClass::Infantry | UnitClass::Mech | UnitClass::Recon | UnitClass::APC
            | UnitClass::Artillery | UnitClass::Tank | UnitClass::AntiAir | UnitClass::Missile
            | UnitClass::Rocket | UnitClass::MediumTank | UnitClass::Neotank => ExplosionAnimation::Land,
            UnitClass::BCopter | UnitClass::TCopter | UnitClass::Fighter | UnitClass::Bomber
            | UnitClass::Stealth | UnitClass::BlackBomb => ExplosionAnimation::Air,
            UnitClass::Battleship | UnitClass::Cruiser | UnitClass::Submarine | UnitClass::Lander
            | UnitClass::Carrier | UnitClass::BlackBoat => ExplosionAnimation::Sea,
            UnitClass::MegaTank | UnitClass::Piperunner => ExplosionAnimation::Mega,
            UnitClass::Oozium => ExplosionAnimation::Mega,
        }
    }
}

/// The side that a unit faces.
#[derive(Clone, Copy, Debug, PartialEq, Eq, Structural)]
pub enum UnitDirection {
    Left,
    Right,
}

/// What a unit is doing.
#[derive(Clone, Copy, Debug, PartialEq, Eq, Structural)]
pub enum UnitAnimation {
    Idle,
    Left,
    Right,
    Up,
    Down,
}

impl UnitAnimation {
    /// Whether the unit stands still.
    pub fn is_idle(&self) -> (r: bool)
        ensures
            r == (*self is Idle),
    {
        match self {
            UnitAnimation::Idle => true,
            _ => false,
        }
    }

    /// The column of the first picture of the animation.
    pub open spec fn tile_x_spec(self) -> int {
        match self {
            UnitAnimation::Idle => 0,
            UnitAnimation::Left => 3,
            UnitAnimation::Right => 3,
            UnitAnimation::Down => 6,
            UnitAnimation::Up => 9,
        }
    }

    /// Returns the column of the first picture of the animation.
    pub fn tile_x(&self) -> (r: u32)
        ensures
            r == self.tile_x_spec(),
    {
        match self {
            UnitAnimation::Idle => 0,
            UnitAnimation::Left => 3,
            UnitAnimation::Right => 3,
            UnitAnimation::Down => 6,
            UnitAnimation::Up => 9,
        }
    }

    /// The side that the unit faces: where it moves to, and while it stands
    /// still the side that its nation looks to.
    pub open spec fn direction_spec(self, nation: Nation) -> UnitDirection {
        match self {
            UnitAnimation::Idle => match nation {
                Nation::OrangeStar | Nation::GreenEarth => UnitDirection::Right,
                _ => UnitDirection::Left,
            },
            UnitAnimation::Right => UnitDirection::Right,
            _ => UnitDirection::Left,
        }
    }

    /// Returns the side that the unit faces.
    pub fn direction(&self, nation: &Nation) -> (r: UnitDirection)
        ensures
            r == self.direction_spec(*nation),
    {
        match self {
            UnitAnimation::Idle => match nation {
                Nation::OrangeStar | Nation::GreenEarth => UnitDirection::Right,
                Nation::BlueMoon | Nation::YellowComet | Nation::BlackHole => UnitDirection::Left,
            },
            UnitAnimation::Right => UnitDirection::Right,
            _ => UnitDirection::Left,
        }
    }
}

/// The number of frames of a unit's animation.
pub const UNIT_FRAMES: u32 = 3;

/// The picture of a unit: in the row of its class and nation, in the
/// column of its animation and frame, as large as the appearance says, and
/// mirrored where the unit faces right.
pub open spec fn unit_tile_spec(class: UnitClass, nation: Nation, animation: UnitAnimation, frame: u32, tile_size: u32) -> Tile {
    let tile_x = (animation.tile_x_spec() + frame) * tile_size;
    let tile_y = class.tile_y_spec(nation) * tile_size;
    let tile = Tile {
        start_x: tile_x as u32,
        start_y: tile_y as u32,
        end_x: (tile_x + tile_size) as u32,
        end_y: (tile_y + tile_size) as u32,
    };
    match animation.direction_spec(nation) {
        UnitDirection::Left => tile,
        UnitDirection::Right => tile.mirror_x_spec(),
    }
}

/// Chooses the picture of a unit.
pub fn unit_tile(class: &UnitClass, nation: &Nation, animation: &UnitAnimation, frame: u32, appearance: &UnitAppearance) -> (r: Tile)
    requires
        (animation.tile_x_spec() + frame) * appearance.unit_tile_size_spec() + appearance.unit_tile_size_spec() <= u32::MAX,
    ensures
        r == unit_tile_spec(*class, *nation, *animation, frame, appearance.unit_tile_size_spec()),
{
    let tile_size = appearance.unit_tile_size();
    let tile_x = (animation.tile_x() + frame) * tile_size;
    let tile_y = class.tile_y(nation) * tile_size;
    let tile = Tile { start_x: tile_x, start_y: tile_y, end_x: tile_x + tile_size, end_y: tile_y + tile_size };
    match animation.direction(nation) {
        UnitDirection::Left => tile,
        UnitDirection::Right => tile.mirror_x(),
    }
}

/// How large the pictures of the units are.
#[derive(Clone, Copy, Debug, PartialEq, Eq, Structural)]
pub enum UnitAppearance {
    DualStrikeSmall,
    DualStrikeBig,
}

impl UnitAppearance {
    /// The width and height of a unit's picture, in pixels.
    pub open spec fn unit_tile_size_spec(self) -> u32 {
        match self {
            UnitAppearance::DualStrikeSmall => 32,
            UnitAppearance::DualStrikeBig => 64,
        }
    }

    /// Returns the width and height of a unit's picture, in pixels.
    pub fn unit_tile_size(&self) -> (r: u32)
        ensures
            r == self.unit_tile_size_spec(),
    {
        match self {
            UnitAppearance::DualStrikeSmall => 32,
            UnitAppearance::DualStrikeBig => 64,
        }
    }
}

impl Default for UnitAppearance {
    /// The big pictures.
    fn default() -> (r: Self)
        ensures
            r == UnitAppearance::DualStrikeBig,
    {
        UnitAppearance::DualStrikeBig
    }
}

/// The directions that a unit can move in.
#[derive(Clone, Copy, Debug, PartialEq, Eq, Structural)]
pub enum MoveDirection {
    Up,
    Down,
    Left,
    Right,
}

impl MoveDirection {
    /// The animation of a unit that moves in this direction.
    pub fn animation(self) -> (r: UnitAnimation)
        ensures
            r == match self {
                MoveDirection::Up => UnitAnimation::Up,
                MoveDirection::Down => UnitAnimation::Down,
                MoveDirection::Left => UnitAnimation::Left,
                MoveDirection::Right => UnitAnimation::Right,
            },
            !(r is Idle),
    {
        match self {
            MoveDirection::Up => UnitAnimation::Up,
            MoveDirection::Down => UnitAnimation::Down,
            MoveDirection::Left => UnitAnimation::Left,
            MoveDirection::Right => UnitAnimation::Right,
        }
    }
}

/// The kinds of building.
#[derive(Clone, Copy, Debug, PartialEq, Eq, Structural)]
pub enum BuildingClass {
    /// Orange Star
    HQ1,
    /// Blue Moon
    HQ2,
    /// Green Earth
    HQ3,
    /// Yellow Comet
    HQ4,
    /// Black Hole
    HQ5,
    City,
    Base,
    Airport,
    Port,
    ComTower,
    Lab,
    MissileSilo,
    MissileSiloEmpty,
}

/// The width of a building's picture, in pixels.
pub const BUILDING_TILE_WIDTH: u32 = 16;

/// The height of a building's picture, in pixels.
pub const BUILDING_TILE_HEIGHT: u32 = 32;

impl BuildingClass {
    /// Every kind of building.
    pub open spec fn all_spec() -> Seq<Self> {
        seq![
            BuildingClass::HQ1,
            BuildingClass::HQ2,
            BuildingClass::HQ3,
            BuildingClass::HQ4,
            BuildingClass::HQ5,
            BuildingClass::City,
            BuildingClass::Base,
            BuildingClass::Airport,
            BuildingClass::Port,
            BuildingClass::ComTower,
            BuildingClass::Lab,
            BuildingClass::MissileSilo,
            BuildingClass::MissileSiloEmpty,
        ]
    }

    /// Returns every kind of building.
    pub fn all() -> (r: Vec<Self>)
        ensures
            r@ == Self::all_spec(),
    {
        let r = vec![
            BuildingClass::HQ1,
            BuildingClass::HQ2,
            BuildingClass::HQ3,
            BuildingClass::HQ4,
            BuildingClass::HQ5,
            BuildingClass::City,
            BuildingClass::Base,
            BuildingClass::Airport,
            BuildingClass::Port,
            BuildingClass::ComTower,
            BuildingClass::Lab,
            BuildingClass::MissileSilo,
            BuildingClass::MissileSiloEmpty,
        ];
        proof {
            assert(r@ =~= Self::all_spec());
        }
        r
    }

    /// The place of the building among the buildings.
    pub open spec fn index_spec(self) -> int {
        match self {
            BuildingClass::HQ1 => 0,
            BuildingClass::HQ2 => 1,
            BuildingClass::HQ3 => 2,
            BuildingClass::HQ4 => 3,
            BuildingClass::HQ5 => 4,
            BuildingClass::City => 5,
            BuildingClass::Base => 6,
            BuildingClass::Airport => 7,
            BuildingClass::Port => 8,
            BuildingClass::ComTower => 9,
            BuildingClass::Lab => 10,
            BuildingClass::MissileSilo => 11,
            BuildingClass::MissileSiloEmpty => 12,
        }
    }

    /// The upper edge of the building's pictures, in pixels: each kind of
    /// building has a row of its own.
    pub fn tile_y(&self) -> (r: u32)
        ensures
            r == self.index_spec() * 32,
    {
        let row: u32 = match self {
            BuildingClass::HQ1 => 0,
            BuildingClass::HQ2 => 1,
            BuildingClass::HQ3 => 2,
            BuildingClass::HQ4 => 3,
            BuildingClass::HQ5 => 4,
            BuildingClass::City => 5,
            BuildingClass::Base => 6,
            BuildingClass::Airport => 7,
            BuildingClass::Port => 8,
            BuildingClass::ComTower => 9,
            BuildingClass::Lab => 10,
            BuildingClass::MissileSilo => 11,
            BuildingClass::MissileSiloEmpty => 12,
        };
        row * BUILDING_TILE_HEIGHT
    }

    /// The picture of the building whose left edge is at `tile_x`.
    pub open spec fn tile_spec(self, tile_x: u32) -> Tile {
        Tile {
            start_x: tile_x,
            start_y: (self.index_spec() * 32) as u32,
            end_x: (tile_x + 16) as u32,
            end_y: (self.index_spec() * 32 + 32) as u32,
        }
    }

    /// Cuts the picture of the building out of its row.
    pub fn tile(&self, tile_x: u32) -> (r: Tile)
        requires
            tile_x + 16 <= u32::MAX,
        ensures
            r == self.tile_spec(tile_x),
    {
        let tile_y = self.tile_y();
        Tile { start_x: tile_x, start_y: tile_y, end_x: tile_x + BUILDING_TILE_WIDTH, end_y: tile_y + BUILDING_TILE_HEIGHT }
    }

    /// The picture of the building in the fog: the second of its row.
    pub fn fog_tile(&self) -> (r: Tile)
        ensures
            r == self.tile_spec(16),
    {
        self.tile(BUILDING_TILE_WIDTH)
    }

    /// Whether a nation can own the building: every building but the silos.
    pub open spec fn can_have_nation_spec(self) -> bool {
        !(self is MissileSilo || self is MissileSiloEmpty)
    }

    /// Returns whether a nation can own the building.
    pub fn can_have_nation(&self) -> (r: bool)
        ensures
            r == self.can_have_nation_spec(),
    {
        match self {
            BuildingClass::MissileSilo | BuildingClass::MissileSiloEmpty => false,
            _ => true,
        }
    }

    /// The left edge of the building's picture, in pixels: the second picture
    /// in the fog; for an owned building the pictures from the third on, one
    /// for each frame; else the first.
    pub open spec fn tile_x_spec(self, fog: bool, has_nation: bool, frame: u32) -> int {
        if fog {
            16
        } else if self.can_have_nation_spec() && has_nation {
            (2 + frame) * 16
        } else {
            0
        }
    }

    /// Chooses the picture of the building.
    pub fn tile_x(&self, fog: bool, has_nation: bool, frame: u32) -> (r: u32)
        requires
            !fog && self.can_have_nation_spec() && has_nation ==> (2 + frame) * 16 <= u32::MAX,
        ensures
            r == self.tile_x_spec(fog, has_nation, frame),
    {
        if fog {
            BUILDING_TILE_WIDTH
        } else if self.can_have_nation() && has_nation {
            (2 + frame) * BUILDING_TILE_WIDTH
        } else {
            0
        }
    }
}

/// The frame of an animation that runs to its last frame and back: `step`
/// counts the frames as time passes.
pub open spec fn pendulum_spec(step: int, frames: int) -> int {
    let last = frames - 1;
    let turn = 2 * last;
    if turn <= 0 {
        0
    } else if step % turn > last {
        turn - step % turn
    } else {
        step % turn
    }
}

/// Behaves like a pendulum, oscillating between the start and end.
///
/// When it reaches the end of the frames, it then reverses direction.
/// When it reaches the start of the frames, it then reverses direction again.
pub fn pendulum(step: u64, frames: u32) -> (r: u32)
    requires
        frames >= 1,
    ensures
        r == pendulum_spec(step as int, frames as int),
        r <= frames - 1,
{
    let last: u64 = (frames - 1) as u64;
    let turn: u64 = last * 2;
    if turn == 0 {
        0
    } else {
        let frame: u64 = step % turn;
        if frame > last {
            (turn - frame) as u32
        } else {
            frame as u32
        }
    }
}

/// The frame of an animation that starts again after its last frame.
pub fn animation_loop(step: u64, frames: u32) -> (r: u32)
    requires
        frames >= 1,
    ensures
        r == step as int % frames as int,
        r < frames,
{
    (step % frames as u64) as u32
}

} // verus!
