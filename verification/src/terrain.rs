//! The terrain of a map: a rectangle of tiles, each of which picks its
//! picture from the tiles around it.

use vstd::prelude::*;
use crate::terrain_rules::{river_rules, sea_rules, shoal_rules};
use crate::terrain_rules::{river_rules_spec, sea_rules_spec, shoal_rules_spec};

verus! {

/// The width and height of a tile's picture, in pixels.
pub const TILE_SIZE: u32 = 16;

/// Every kind of terrain.
pub const ANY: u32 = 0xffff_ffff;
pub const EMPTY: u32 = 0x0001;
pub const PLAIN: u32 = 0x0002;
pub const ROAD: u32 = 0x0004;
pub const WOOD: u32 = 0x0008;
pub const MOUNTAIN: u32 = 0x0010;
pub const PIPELINE: u32 = 0x0020;
pub const PIPESEAM: u32 = 0x0040;
pub const RIVER: u32 = 0x0080;
pub const SEA: u32 = 0x0100;
pub const SHOAL: u32 = 0x0200;
pub const REEF: u32 = 0x0400;
pub const BRIDGE: u32 = 0x0800;
pub const SILO: u32 = 0x1000;
/// Pipelines and their seams.
pub const PIPES: u32 = PIPELINE | PIPESEAM;
/// What counts as water, the edge of the map included.
pub const WATER: u32 = SEA | RIVER | SHOAL | REEF | BRIDGE | EMPTY;
/// What does not count as water.
pub const GROUND: u32 = !WATER;

/// A set of kinds of terrain, one bit for each kind.
///
/// By using bitwise operators like | and & and ! it
/// can determine the adjacent tiles very efficiently.
#[derive(Clone, Copy, Debug, PartialEq, Eq, Structural)]
pub struct TerrainFlag(pub u32);

impl TerrainFlag {
    /// Whether the two sets have a kind in common.
    pub open spec fn contains_spec(self, other: Self) -> bool {
        (self.0 & other.0) != 0
    }

    /// Whether the two sets have a kind in common.
    pub fn contains(self, other: Self) -> (r: bool)
        ensures
            r == self.contains_spec(other),
    {
        (self.0 & other.0) != 0
    }

    /// The kinds that are not in the set.
    pub fn not(self) -> (r: Self)
        ensures
            r.0 == !self.0,
    {
        TerrainFlag(!self.0)
    }

    /// The kinds that are in both sets.
    pub fn and(self, rhs: Self) -> (r: Self)
        ensures
            r.0 == self.0 & rhs.0,
    {
        TerrainFlag(self.0 & rhs.0)
    }

    /// The kinds that are in either set.
    pub fn or(self, rhs: Self) -> (r: Self)
        ensures
            r.0 == self.0 | rhs.0,
    {
        TerrainFlag(self.0 | rhs.0)
    }

    /// The kind of terrain that a tile of class `class` is.
    pub fn from_tile(class: &TerrainClass) -> (r: Self)
        ensures
            r == class.flag_spec(),
    {
        class.flag()
    }
}

impl Default for TerrainFlag {
    /// The edge of the map.
    fn default() -> (r: Self)
        ensures
            r == TerrainFlag(EMPTY),
    {
        TerrainFlag(EMPTY)
    }
}

/// The direction of a bridge.
#[derive(Clone, Copy, Debug, PartialEq, Eq, Structural)]
pub enum Orientation {
    Horizontal,
    Vertical,
}

/// What a tile is made of.
#[derive(Clone, Copy, Debug, PartialEq, Eq, Structural)]
pub enum TerrainClass {
    Empty,
    Grass,
    Road { ruins: bool },
    Bridge { orientation: Orientation },
    Forest,
    Mountain { variant: u32 },
    Pipeline,
    Pipeseam { destroyed: bool },
    Ocean,
    River,
    Shoal,
    Reef,
}

impl TerrainClass {
    /// The kind of terrain that the class is.
    pub open spec fn flag_spec(self) -> TerrainFlag {
        match self {
            TerrainClass::Empty => TerrainFlag(EMPTY),
            TerrainClass::Grass => TerrainFlag(PLAIN),
            TerrainClass::Road { .. } => TerrainFlag(ROAD),
            TerrainClass::Bridge { .. } => TerrainFlag(BRIDGE),
            TerrainClass::Forest => TerrainFlag(WOOD),
            TerrainClass::Mountain { .. } => TerrainFlag(MOUNTAIN),
            TerrainClass::Pipeline => TerrainFlag(PIPELINE),
            TerrainClass::Pipeseam { .. } => TerrainFlag(PIPESEAM),
            TerrainClass::Ocean => TerrainFlag(SEA),
            TerrainClass::River => TerrainFlag(RIVER),
            TerrainClass::Shoal => TerrainFlag(SHOAL),
            TerrainClass::Reef => TerrainFlag(REEF),
        }
    }

    /// The kind of terrain that the class is.
    pub fn flag(&self) -> (r: TerrainFlag)
        ensures
            r == self.flag_spec(),
    {
        match self {
            TerrainClass::Empty => TerrainFlag(EMPTY),
            TerrainClass::Grass => TerrainFlag(PLAIN),
            TerrainClass::Road { .. } => TerrainFlag(ROAD),
            TerrainClass::Bridge { .. } => TerrainFlag(BRIDGE),
            TerrainClass::Forest => TerrainFlag(WOOD),
            TerrainClass::Mountain { .. } => TerrainFlag(MOUNTAIN),
            TerrainClass::Pipeline => TerrainFlag(PIPELINE),
            TerrainClass::Pipeseam { .. } => TerrainFlag(PIPESEAM),
            TerrainClass::Ocean => TerrainFlag(SEA),
            TerrainClass::River => TerrainFlag(RIVER),
            TerrainClass::Shoal => TerrainFlag(SHOAL),
            TerrainClass::Reef => TerrainFlag(REEF),
        }
    }

    /// One class of each kind, in the order of the kinds.
    pub open spec fn all_spec() -> Seq<Self> {
        seq![
            TerrainClass::Empty,
            TerrainClass::Grass,
            TerrainClass::Road { ruins: false },
            TerrainClass::Bridge { orientation: Orientation::Horizontal },
            TerrainClass::Forest,
            TerrainClass::Mountain { variant: 0 },
            TerrainClass::Pipeline,
            TerrainClass::Pipeseam { destroyed: false },
            TerrainClass::Ocean,
            TerrainClass::River,
            TerrainClass::Shoal,
            TerrainClass::Reef,
        ]
    }

    /// Returns one class of each kind.
    pub fn all() -> (r: Vec<Self>)
        ensures
            r@ == Self::all_spec(),
    {
        let r = vec![
            TerrainClass::Empty,
            TerrainClass::Grass,
            TerrainClass::Road { ruins: false },
            TerrainClass::Bridge { orientation: Orientation::Horizontal },
            TerrainClass::Forest,
            TerrainClass::Mountain { variant: 0 },
            TerrainClass::Pipeline,
            TerrainClass::Pipeseam { destroyed: false },
            TerrainClass::Ocean,
            TerrainClass::River,
            TerrainClass::Shoal,
            TerrainClass::Reef,
        ];
        proof {
            assert(r@ =~= Self::all_spec());
        }
        r
    }

    /// One of the three pictures of a mountain, chosen by `roll`, which the
    /// caller draws at random.
    pub fn random_mountain(roll: u32) -> (r: Self)
        ensures
            r == (TerrainClass::Mountain { variant: roll % 3 }),
    {
        TerrainClass::Mountain { variant: roll % 3 }
    }
}

/// This gives information about which tiles are adjacent to this tile.
#[derive(Clone, Copy, Debug, PartialEq, Eq, Structural)]
pub struct Adjacent {
    pub up: TerrainFlag,
    pub down: TerrainFlag,
    pub left: TerrainFlag,
    pub right: TerrainFlag,
    pub up_left: TerrainFlag,
    pub up_right: TerrainFlag,
    pub down_left: TerrainFlag,
    pub down_right: TerrainFlag,
}

impl Default for Adjacent {
    /// A tile with the edge of the map on every side.
    fn default() -> (r: Self)
        ensures
            r == Adjacent::alone_spec(),
    {
        Adjacent {
            up: TerrainFlag(EMPTY),
            down: TerrainFlag(EMPTY),
            left: TerrainFlag(EMPTY),
            right: TerrainFlag(EMPTY),
            up_left: TerrainFlag(EMPTY),
            up_right: TerrainFlag(EMPTY),
            down_left: TerrainFlag(EMPTY),
            down_right: TerrainFlag(EMPTY),
        }
    }
}

impl Adjacent {
    /// A tile with the edge of the map on every side.
    pub open spec fn alone_spec() -> Self {
        Adjacent {
            up: TerrainFlag(EMPTY),
            down: TerrainFlag(EMPTY),
            left: TerrainFlag(EMPTY),
            right: TerrainFlag(EMPTY),
            up_left: TerrainFlag(EMPTY),
            up_right: TerrainFlag(EMPTY),
            down_left: TerrainFlag(EMPTY),
            down_right: TerrainFlag(EMPTY),
        }
    }
}

/// A picture in the spritesheet, and the neighbours that it is drawn for.
#[derive(Clone, Copy, Debug, PartialEq, Eq, Structural)]
pub struct TerrainRule {
    pub tile_x: u32,
    pub tile_y: u32,
    pub up: TerrainFlag,
    pub down: TerrainFlag,
    pub left: TerrainFlag,
    pub right: TerrainFlag,
    pub up_left: TerrainFlag,
    pub up_right: TerrainFlag,
    pub down_left: TerrainFlag,
    pub down_right: TerrainFlag,
}

/// The rule for the picture at `tile_x`, `tile_y`.
pub open spec fn rule_spec(tile_x: u32, tile_y: u32, up: u32, down: u32, left: u32, right: u32, up_left: u32, up_right: u32, down_left: u32, down_right: u32) -> TerrainRule {
    TerrainRule {
        tile_x,
        tile_y,
        up: TerrainFlag(up),
        down: TerrainFlag(down),
        left: TerrainFlag(left),
        right: TerrainFlag(right),
        up_left: TerrainFlag(up_left),
        up_right: TerrainFlag(up_right),
        down_left: TerrainFlag(down_left),
        down_right: TerrainFlag(down_right),
    }
}

/// Makes the rule for the picture at `tile_x`, `tile_y`.
pub fn rule(tile_x: u32, tile_y: u32, up: u32, down: u32, left: u32, right: u32, up_left: u32, up_right: u32, down_left: u32, down_right: u32) -> (r: TerrainRule)
    ensures
        r == rule_spec(tile_x, tile_y, up, down, left, right, up_left, up_right, down_left, down_right),
{
    TerrainRule {
        tile_x,
        tile_y,
        up: TerrainFlag(up),
        down: TerrainFlag(down),
        left: TerrainFlag(left),
        right: TerrainFlag(right),
        up_left: TerrainFlag(up_left),
        up_right: TerrainFlag(up_right),
        down_left: TerrainFlag(down_left),
        down_right: TerrainFlag(down_right),
    }
}

impl TerrainRule {
    /// Whether each neighbour is of a kind that the rule allows there.
    pub open spec fn matches_spec(self, adjacent: Adjacent) -> bool {
        &&& self.up.contains_spec(adjacent.up)
        &&& self.down.contains_spec(adjacent.down)
        &&& self.left.contains_spec(adjacent.left)
        &&& self.right.contains_spec(adjacent.right)
        &&& self.up_left.contains_spec(adjacent.up_left)
        &&& self.up_right.contains_spec(adjacent.up_right)
        &&& self.down_left.contains_spec(adjacent.down_left)
        &&& self.down_right.contains_spec(adjacent.down_right)
    }

    /// Whether each neighbour is of a kind that the rule allows there.
    pub fn matches(&self, adjacent: &Adjacent) -> (r: bool)
        ensures
            r == self.matches_spec(*adjacent),
    {
        self.up.contains(adjacent.up) && self.down.contains(adjacent.down)
            && self.left.contains(adjacent.left) && self.right.contains(adjacent.right)
            && self.up_left.contains(adjacent.up_left) && self.up_right.contains(adjacent.up_right)
            && self.down_left.contains(adjacent.down_left) && self.down_right.contains(adjacent.down_right)
    }

    /// The sixteen pictures of a block of four by four at `x`, `y`, for a
    /// kind of terrain that joins up with its like: column by column the
    /// neighbour to the right, to both sides, to the left, and to neither;
    /// row by row the neighbour below, both, above, and neither.
    pub open spec fn block_matches_spec(flag: u32, x: u32, y: u32) -> Seq<TerrainRule> {
        let n = !flag;
        seq![
            rule_spec((x + 0) as u32, (y + 0) as u32, n, flag, n, flag, ANY, ANY, ANY, ANY),
            rule_spec((x + 1) as u32, (y + 0) as u32, n, flag, flag, flag, ANY, ANY, ANY, ANY),
            rule_spec((x + 2) as u32, (y + 0) as u32, n, flag, flag, n, ANY, ANY, ANY, ANY),
            rule_spec((x + 3) as u32, (y + 0) as u32, n, flag, n, n, ANY, ANY, ANY, ANY),
            rule_spec((x + 0) as u32, (y + 1) as u32, flag, flag, n, flag, ANY, ANY, ANY, ANY),
            rule_spec((x + 1) as u32, (y + 1) as u32, flag, flag, flag, flag, ANY, ANY, ANY, ANY),
            rule_spec((x + 2) as u32, (y + 1) as u32, flag, flag, flag, n, ANY, ANY, ANY, ANY),
            rule_spec((x + 3) as u32, (y + 1) as u32, flag, flag, n, n, ANY, ANY, ANY, ANY),
            rule_spec((x + 0) as u32, (y + 2) as u32, flag, n, n, flag, ANY, ANY, ANY, ANY),
            rule_spec((x + 1) as u32, (y + 2) as u32, flag, n, flag, flag, ANY, ANY, ANY, ANY),
            rule_spec((x + 2) as u32, (y + 2) as u32, flag, n, flag, n, ANY, ANY, ANY, ANY),
            rule_spec((x + 3) as u32, (y + 2) as u32, flag, n, n, n, ANY, ANY, ANY, ANY),
            rule_spec((x + 0) as u32, (y + 3) as u32, n, n, n, flag, ANY, ANY, ANY, ANY),
            rule_spec((x + 1) as u32, (y + 3) as u32, n, n, flag, flag, ANY, ANY, ANY, ANY),
            rule_spec((x + 2) as u32, (y + 3) as u32, n, n, flag, n, ANY, ANY, ANY, ANY),
            rule_spec((x + 3) as u32, (y + 3) as u32, n, n, n, n, ANY, ANY, ANY, ANY),
        ]
    }

    /// Returns the sixteen rules of a block of four by four pictures.
    pub fn block_matches(flag: TerrainFlag, x: u32, y: u32) -> (r: Vec<TerrainRule>)
        requires
            x + 3 <= u32::MAX,
            y + 3 <= u32::MAX,
        ensures
            r@ == Self::block_matches_spec(flag.0, x, y),
    {
        let f = flag.0;
        let n = !flag.0;
        let r = vec![
            rule(x + 0, y + 0, n, f, n, f, ANY, ANY, ANY, ANY),
            rule(x + 1, y + 0, n, f, f, f, ANY, ANY, ANY, ANY),
            rule(x + 2, y + 0, n, f, f, n, ANY, ANY, ANY, ANY),
            rule(x + 3, y + 0, n, f, n, n, ANY, ANY, ANY, ANY),
            rule(x + 0, y + 1, f, f, n, f, ANY, ANY, ANY, ANY),
            rule(x + 1, y + 1, f, f, f, f, ANY, ANY, ANY, ANY),
            rule(x + 2, y + 1, f, f, f, n, ANY, ANY, ANY, ANY),
            rule(x + 3, y + 1, f, f, n, n, ANY, ANY, ANY, ANY),
            rule(x + 0, y + 2, f, n, n, f, ANY, ANY, ANY, ANY),
            rule(x + 1, y + 2, f, n, f, f, ANY, ANY, ANY, ANY),
            rule(x + 2, y + 2, f, n, f, n, ANY, ANY, ANY, ANY),
            rule(x + 3, y + 2, f, n, n, n, ANY, ANY, ANY, ANY),
            rule(x + 0, y + 3, n, n, n, f, ANY, ANY, ANY, ANY),
            rule(x + 1, y + 3, n, n, f, f, ANY, ANY, ANY, ANY),
            rule(x + 2, y + 3, n, n, f, n, ANY, ANY, ANY, ANY),
            rule(x + 3, y + 3, n, n, n, n, ANY, ANY, ANY, ANY),
        ];
        proof {
            assert(r@ =~= Self::block_matches_spec(flag.0, x, y));
        }
        r
    }
}

/// The first of the first `n` rules that matches, if any does.
pub open spec fn first_match_spec(rules: Seq<TerrainRule>, adjacent: Adjacent, n: int) -> Option<TerrainRule>
    decreases n,
{
    if n <= 0 || n > rules.len() {
        None
    } else {
        match first_match_spec(rules, adjacent, n - 1) {
            Some(found) => Some(found),
            None => if rules[n - 1].matches_spec(adjacent) {
                Some(rules[n - 1])
            } else {
                None
            },
        }
    }
}

/// A rule that was found among the first `i` is found among the first `n`.
pub proof fn lemma_first_match_stable(rules: Seq<TerrainRule>, adjacent: Adjacent, i: int, n: int)
    requires
        0 <= i <= n <= rules.len(),
        first_match_spec(rules, adjacent, i) is Some,
    ensures
        first_match_spec(rules, adjacent, n) == first_match_spec(rules, adjacent, i),
    decreases n - i,
{
    if i < n {
        lemma_first_match_stable(rules, adjacent, i, n - 1);
    }
}

/// Finds the first rule that matches the neighbours.
pub fn first_match(rules: &Vec<TerrainRule>, adjacent: &Adjacent) -> (r: Option<TerrainRule>)
    ensures
        r == first_match_spec(rules@, *adjacent, rules@.len() as int),
        r is Some ==> exists|i: int| 0 <= i < rules@.len() && rules@[i] == r->Some_0,
{
    let mut i: usize = 0;
    while i < rules.len()
        invariant
            0 <= i <= rules@.len(),
            first_match_spec(rules@, *adjacent, i as int) is None,
        decreases rules@.len() - i,
    {
        if rules[i].matches(adjacent) {
            proof {
                lemma_first_match_stable(rules@, *adjacent, i as int + 1, rules@.len() as int);
            }
            return Some(rules[i]);
        }
        i = i + 1;
    }
    None
}

/// How the picture of a tile changes with time.
#[derive(Clone, Copy, Debug, PartialEq, Eq, Structural)]
pub struct FrameInfo {
    /// How far below each other the frames are in the spritesheet, in pixels.
    pub offset_y: u32,
    /// The number of frames.
    pub frames: u32,
}

/// The picture of a tile, in pixels of the spritesheet.
#[derive(Clone, Copy, Debug, PartialEq, Eq, Structural)]
pub struct TileInfo {
    pub tile_x: u32,
    pub tile_y: u32,
    pub tile_width: u32,
    pub tile_height: u32,
    pub frame_info: Option<FrameInfo>,
}

/// The picture in column `column` and row `row` of the spritesheet.
pub open spec fn picture_spec(column: int, row: int, rows: int, frame_info: Option<FrameInfo>) -> TileInfo {
    TileInfo {
        tile_x: (column * 16) as u32,
        tile_y: (row * 16) as u32,
        tile_width: 16,
        tile_height: (rows * 16) as u32,
        frame_info,
    }
}

fn picture(column: u32, row: u32, rows: u32, frame_info: Option<FrameInfo>) -> (r: TileInfo)
    requires
        column * 16 <= u32::MAX,
        row * 16 <= u32::MAX,
        rows * 16 <= u32::MAX,
    ensures
        r == picture_spec(column as int, row as int, rows as int, frame_info),
{
    TileInfo {
        tile_x: column * TILE_SIZE,
        tile_y: row * TILE_SIZE,
        tile_width: TILE_SIZE,
        tile_height: rows * TILE_SIZE,
        frame_info,
    }
}

/// Frames that lie `rows` tiles below each other.
pub open spec fn frames_spec(rows: int, frames: u32) -> Option<FrameInfo> {
    Some(FrameInfo { offset_y: (rows * 16) as u32, frames })
}

fn frames(rows: u32, count: u32) -> (r: Option<FrameInfo>)
    requires
        rows <= 4,
    ensures
        r == frames_spec(rows as int, count),
{
    Some(FrameInfo { offset_y: rows * TILE_SIZE, frames: count })
}

/// No picture of any table lies beyond the first 64 columns and rows.
pub proof fn lemma_tables_small()
    ensures
        forall|i: int| 0 <= i < river_rules_spec().len() ==> (#[trigger] river_rules_spec()[i]).tile_x < 64 && river_rules_spec()[i].tile_y < 64,
        forall|i: int| 0 <= i < sea_rules_spec().len() ==> (#[trigger] sea_rules_spec()[i]).tile_x < 64 && sea_rules_spec()[i].tile_y < 64,
        forall|i: int| 0 <= i < shoal_rules_spec().len() ==> (#[trigger] shoal_rules_spec()[i]).tile_x < 64 && shoal_rules_spec()[i].tile_y < 64,
{
}

/// A block of pictures reaches three columns and rows beyond its corner.
pub proof fn lemma_block_small(flag: u32, x: u32, y: u32)
    requires
        x + 3 <= u32::MAX,
        y + 3 <= u32::MAX,
    ensures
        TerrainRule::block_matches_spec(flag, x, y).len() == 16,
        forall|i: int| 0 <= i < 16 ==> (#[trigger] TerrainRule::block_matches_spec(flag, x, y)[i]).tile_x <= x + 3
            && TerrainRule::block_matches_spec(flag, x, y)[i].tile_y <= y + 3,
{
}

impl TileInfo {
    /// The picture that stands for a mistake.
    pub open spec fn error_spec() -> Self {
        picture_spec(1, 0, 1, None)
    }

    /// The picture that stands for a mistake.
    pub fn error() -> (r: Self)
        ensures
            r == Self::error_spec(),
    {
        picture(1, 0, 1, None)
    }

    /// The picture of the first rule that matches, or the picture for a
    /// mistake where none does.
    pub open spec fn from_rules_spec(rules: Seq<TerrainRule>, adjacent: Adjacent, frame_info: Option<FrameInfo>) -> Self {
        match first_match_spec(rules, adjacent, rules.len() as int) {
            Some(found) => picture_spec(found.tile_x as int, found.tile_y as int, 1, frame_info),
            None => Self::error_spec(),
        }
    }

    fn from_rules(rules: &Vec<TerrainRule>, adjacent: &Adjacent, frame_info: Option<FrameInfo>) -> (r: Self)
        requires
            forall|i: int| 0 <= i < rules@.len() ==> (#[trigger] rules@[i]).tile_x < 64 && rules@[i].tile_y < 64,
        ensures
            r == Self::from_rules_spec(rules@, *adjacent, frame_info),
    {
        match first_match(rules, adjacent) {
            Some(found) => picture(found.tile_x, found.tile_y, 1, frame_info),
            None => Self::error(),
        }
    }

    /// The picture of a road.
    pub open spec fn new_road_spec(adjacent: Adjacent, ruins: bool) -> Self {
        Self::from_rules_spec(TerrainRule::block_matches_spec(ROAD, if ruins { 16u32 } else { 12u32 }, 0), adjacent, None)
    }

    /// Chooses the picture of a road from the roads around it.
    pub fn new_road(adjacent: &Adjacent, ruins: bool) -> (r: Self)
        ensures
            r == Self::new_road_spec(*adjacent, ruins),
    {
        let x: u32 = if ruins { 16 } else { 12 };
        let rules = TerrainRule::block_matches(TerrainFlag(ROAD), x, 0);
        proof {
            lemma_block_small(ROAD, x, 0);
        }
        Self::from_rules(&rules, adjacent, None)
    }

    /// The picture of a pipeline.
    pub open spec fn new_pipe_spec(adjacent: Adjacent) -> Self {
        Self::from_rules_spec(TerrainRule::block_matches_spec(PIPES, 0, 4), adjacent, frames_spec(4, 2))
    }

    /// Chooses the picture of a pipeline from the pipes around it.
    pub fn new_pipe(adjacent: &Adjacent) -> (r: Self)
        ensures
            r == Self::new_pipe_spec(*adjacent),
    {
        let rules = TerrainRule::block_matches(TerrainFlag(PIPES), 0, 4);
        proof {
            lemma_block_small(PIPES, 0, 4);
        }
        Self::from_rules(&rules, adjacent, frames(4, 2))
    }

    /// The picture of a sea tile.
    pub open spec fn new_sea_spec(adjacent: Adjacent) -> Self {
        Self::from_rules_spec(sea_rules_spec(), adjacent, frames_spec(4, 4))
    }

    /// Chooses the picture of a sea tile from the tiles around it.
    pub fn new_sea(adjacent: &Adjacent) -> (r: Self)
        ensures
            r == Self::new_sea_spec(*adjacent),
    {
        let rules = sea_rules();
        proof {
            lemma_tables_small();
        }
        Self::from_rules(&rules, adjacent, frames(4, 4))
    }

    /// The picture of a river tile.
    pub open spec fn new_river_spec(adjacent: Adjacent) -> Self {
        Self::from_rules_spec(river_rules_spec(), adjacent, frames_spec(4, 4))
    }

    /// Chooses the picture of a river tile from the tiles around it.
    pub fn new_river(adjacent: &Adjacent) -> (r: Self)
        ensures
            r == Self::new_river_spec(*adjacent),
    {
        let rules = river_rules();
        proof {
            lemma_tables_small();
        }
        Self::from_rules(&rules, adjacent, frames(4, 4))
    }

    /// The picture of a shoal tile.
    pub open spec fn new_shoal_spec(adjacent: Adjacent) -> Self {
        Self::from_rules_spec(shoal_rules_spec(), adjacent, frames_spec(4, 4))
    }

    /// Chooses the picture of a shoal tile from the tiles around it.
    pub fn new_shoal(adjacent: &Adjacent) -> (r: Self)
        ensures
            r == Self::new_shoal_spec(*adjacent),
    {
        let rules = shoal_rules();
        proof {
            lemma_tables_small();
        }
        Self::from_rules(&rules, adjacent, frames(4, 4))
    }

    /// The picture of a pipe seam: upright where pipes are above and below
    /// it, else lying; broken or whole. Only the whole, lying seam moves.
    pub open spec fn new_pipeseam_spec(adjacent: Adjacent, destroyed: bool) -> Self {
        let upright = TerrainFlag(PIPES).contains_spec(adjacent.up) && TerrainFlag(PIPES).contains_spec(adjacent.down);
        picture_spec(
            if destroyed { 8 } else { 9 },
            if upright { 0 } else { 1 },
            1,
            if !upright && !destroyed { frames_spec(1, 2) } else { None },
        )
    }

    /// Chooses the picture of a pipe seam.
    pub fn new_pipeseam(adjacent: &Adjacent, destroyed: bool) -> (r: Self)
        ensures
            r == Self::new_pipeseam_spec(*adjacent, destroyed),
    {
        if TerrainFlag(PIPES).contains(adjacent.up) && TerrainFlag(PIPES).contains(adjacent.down) {
            if destroyed {
                picture(8, 0, 1, None)
            } else {
                picture(9, 0, 1, None)
            }
        } else {
            if destroyed {
                picture(8, 1, 1, None)
            } else {
                picture(9, 1, 1, frames(1, 2))
            }
        }
    }

    /// Whether the frame `frame` of the picture lies within reach of `u32`.
    pub open spec fn fits(self, frame: u32) -> bool {
        &&& self.tile_x + self.tile_width <= u32::MAX
        &&& self.tile_y + self.tile_height <= u32::MAX
        &&& match self.frame_info {
            None => true,
            Some(info) => self.tile_y + frame * info.offset_y + self.tile_width <= u32::MAX,
        }
    }

    /// The frame `frame` of the picture. A picture that does not move has one
    /// frame; the frames of one that does lie below each other and are as
    /// high as they are wide.
    pub open spec fn tile_spec(self, frame: u32) -> crate::tile::Tile {
        match self.frame_info {
            None => crate::tile::Tile {
                start_x: self.tile_x,
                start_y: self.tile_y,
                end_x: (self.tile_x + self.tile_width) as u32,
                end_y: (self.tile_y + self.tile_height) as u32,
            },
            Some(info) => crate::tile::Tile {
                start_x: self.tile_x,
                start_y: (self.tile_y + frame * info.offset_y) as u32,
                end_x: (self.tile_x + self.tile_width) as u32,
                end_y: (self.tile_y + frame * info.offset_y + self.tile_width) as u32,
            },
        }
    }

    /// Cuts a frame of the picture out of the spritesheet.
    pub fn tile(&self, frame: u32) -> (r: crate::tile::Tile)
        requires
            self.fits(frame),
        ensures
            r == self.tile_spec(frame),
    {
        match self.frame_info {
            None => crate::tile::Tile {
                start_x: self.tile_x,
                start_y: self.tile_y,
                end_x: self.tile_x + self.tile_width,
                end_y: self.tile_y + self.tile_height,
            },
            Some(info) => {
                assert(0 <= frame * info.offset_y) by (nonlinear_arith)
                    requires
                        0 <= frame,
                        0 <= info.offset_y,
                ;
                let start_y = self.tile_y + frame * info.offset_y;
                crate::tile::Tile {
                    start_x: self.tile_x,
                    start_y,
                    end_x: self.tile_x + self.tile_width,
                    end_y: start_y + self.tile_width,
                }
            },
        }
    }

    /// Checks whether a frame of the picture can be cut out.
    pub fn frame_fits(&self, frame: u32) -> (r: bool)
        ensures
            r == self.fits(frame),
    {
        let wide = self.tile_x as u64 + self.tile_width as u64;
        let high = self.tile_y as u64 + self.tile_height as u64;
        if wide > u32::MAX as u64 || high > u32::MAX as u64 {
            return false;
        }
        match self.frame_info {
            None => true,
            Some(info) => {
                assert(0 <= frame * info.offset_y <= 0xffff_ffff * 0xffff_ffff) by (nonlinear_arith)
                    requires
                        0 <= frame <= 0xffff_ffff,
                        0 <= info.offset_y <= 0xffff_ffff,
                ;
                let end: u128 = self.tile_y as u128 + frame as u128 * info.offset_y as u128 + self.tile_width as u128;
                end <= u32::MAX as u128
            },
        }
    }

    /// Whether the picture of a tile of class `class` lies within reach of
    /// `u32`: every picture does but that of a mountain whose variant is too
    /// far to the right.
    pub open spec fn drawable(class: TerrainClass) -> bool {
        class matches TerrainClass::Mountain { variant } ==> (4 + variant) * 16 <= u32::MAX
    }

    /// The picture of a tile of class `class` with the neighbours `adjacent`.
    pub open spec fn new_spec(class: TerrainClass, adjacent: Adjacent) -> Self {
        match class {
            TerrainClass::Empty => Self::error_spec(),
            TerrainClass::Grass => picture_spec(if TerrainFlag(MOUNTAIN).contains_spec(adjacent.left) { 3 } else { 2 }, 0, 1, None),
            TerrainClass::Forest => picture_spec(if TerrainFlag(MOUNTAIN).contains_spec(adjacent.left) { 2 } else { 1 }, 1, 2, None),
            TerrainClass::Mountain { variant } => picture_spec(4 + variant, 1, 2, None),
            TerrainClass::Reef => picture_spec(24, 0, 1, frames_spec(1, 4)),
            TerrainClass::Bridge { orientation } => match orientation {
                Orientation::Horizontal => picture_spec(21, 3, 1, None),
                Orientation::Vertical => picture_spec(23, 1, 1, None),
            },
            TerrainClass::Road { ruins } => Self::new_road_spec(adjacent, ruins),
            TerrainClass::Pipeline => Self::new_pipe_spec(adjacent),
            TerrainClass::Pipeseam { destroyed } => Self::new_pipeseam_spec(adjacent, destroyed),
            TerrainClass::Ocean => Self::new_sea_spec(adjacent),
            TerrainClass::River => Self::new_river_spec(adjacent),
            TerrainClass::Shoal => Self::new_shoal_spec(adjacent),
        }
    }

    /// Chooses the picture of a tile from its class and its neighbours.
    pub fn new(class: &TerrainClass, adjacent: &Adjacent) -> (r: Self)
        requires
            Self::drawable(*class),
        ensures
            r == Self::new_spec(*class, *adjacent),
    {
        match *class {
            TerrainClass::Empty => Self::error(),
            TerrainClass::Grass => if TerrainFlag(MOUNTAIN).contains(adjacent.left) {
                picture(3, 0, 1, None)
            } else {
                picture(2, 0, 1, None)
            },
            TerrainClass::Forest => if TerrainFlag(MOUNTAIN).contains(adjacent.left) {
                picture(2, 1, 2, None)
            } else {
                picture(1, 1, 2, None)
            },
            TerrainClass::Mountain { variant } => picture(4 + variant, 1, 2, None),
            TerrainClass::Reef => picture(24, 0, 1, frames(1, 4)),
            TerrainClass::Bridge { orientation } => match orientation {
                Orientation::Horizontal => picture(21, 3, 1, None),
                Orientation::Vertical => picture(23, 1, 1, None),
            },
            TerrainClass::Road { ruins } => Self::new_road(adjacent, ruins),
            TerrainClass::Pipeline => Self::new_pipe(adjacent),
            TerrainClass::Pipeseam { destroyed } => Self::new_pipeseam(adjacent, destroyed),
            TerrainClass::Ocean => Self::new_sea(adjacent),
            TerrainClass::River => Self::new_river(adjacent),
            TerrainClass::Shoal => Self::new_shoal(adjacent),
        }
    }
}

/// One tile of the map.
#[derive(Clone, Copy, Debug, PartialEq, Eq, Structural)]
pub struct TerrainTile {
    pub x: u32,
    pub y: u32,
    pub class: TerrainClass,
    /// The tile's picture, as [`Terrain::update_tiles`] last chose it.
    pub info: TileInfo,
}

impl TerrainTile {
    /// A tile of class `class` that has not chosen its picture yet.
    pub fn new(x: u32, y: u32, class: TerrainClass) -> (r: Self)
        ensures
            r == (TerrainTile { x, y, class, info: TileInfo::error_spec() }),
    {
        TerrainTile { x, y, class, info: TileInfo::error() }
    }

    /// The tile beyond the edge of every map.
    pub open spec fn empty_spec(x: u32, y: u32) -> Self {
        TerrainTile { x, y, class: TerrainClass::Empty, info: TileInfo::error_spec() }
    }

    /// A tile without terrain.
    pub fn empty(x: u32, y: u32) -> (r: Self)
        ensures
            r == Self::empty_spec(x, y),
    {
        TerrainTile { x, y, class: TerrainClass::Empty, info: TileInfo::error() }
    }
}

/// The kind of terrain at `x`, `y` of a map that is `width` tiles wide and
/// holds its tiles row after row; beyond the last tile, the edge of the map.
pub open spec fn flag_at(tiles: Seq<TerrainTile>, width: u32, x: int, y: int) -> TerrainFlag {
    let index = y * width + x;
    if 0 <= index < tiles.len() {
        tiles[index].class.flag_spec()
    } else {
        TerrainFlag(EMPTY)
    }
}

/// The kinds of terrain around `tile`. Beyond the left and the upper edge of
/// the map lies the edge of the map.
pub open spec fn adjacent_spec(tiles: Seq<TerrainTile>, width: u32, tile: TerrainTile) -> Adjacent {
    let x = tile.x as int;
    let y = tile.y as int;
    let edge = TerrainFlag(EMPTY);
    Adjacent {
        up: if y >= 1 { flag_at(tiles, width, x, y - 1) } else { edge },
        down: flag_at(tiles, width, x, y + 1),
        left: if x >= 1 { flag_at(tiles, width, x - 1, y) } else { edge },
        right: flag_at(tiles, width, x + 1, y),
        up_left: if x >= 1 && y >= 1 { flag_at(tiles, width, x - 1, y - 1) } else { edge },
        up_right: if y >= 1 { flag_at(tiles, width, x + 1, y - 1) } else { edge },
        down_left: if x >= 1 { flag_at(tiles, width, x - 1, y + 1) } else { edge },
        down_right: flag_at(tiles, width, x + 1, y + 1),
    }
}

/// A map of `width` by `height` tiles, held row after row.
pub struct Terrain {
    pub width: u32,
    pub height: u32,
    pub tiles: Vec<TerrainTile>,
}

impl View for Terrain {
    type V = Seq<TerrainTile>;

    open spec fn view(&self) -> Seq<TerrainTile> {
        self.tiles@
    }
}

impl Terrain {
    /// Whether the map holds a tile for each place, and each tile knows its
    /// place.
    pub open spec fn wf(self) -> bool {
        &&& self@.len() == self.width * self.height
        &&& forall|i: int| 0 <= i < self@.len() ==> (#[trigger] self@[i]).x == i % (self.width as int)
            && self@[i].y == i / (self.width as int)
    }

    /// Whether the picture of every tile can be chosen without overflow.
    pub open spec fn drawable(self) -> bool {
        forall|i: int| 0 <= i < self@.len() ==> TileInfo::drawable((#[trigger] self@[i]).class)
    }

    /// Where the tile at `x`, `y` is held.
    pub open spec fn index_spec(self, x: u32, y: u32) -> int {
        y * self.width + x
    }

    /// Makes a map of `width` by `height` tiles without terrain.
    pub fn new(width: u32, height: u32) -> (r: Self)
        requires
            width * height <= usize::MAX,
        ensures
            r.width == width,
            r.height == height,
            r.wf(),
            r.drawable(),
            forall|i: int| 0 <= i < r@.len() ==> (#[trigger] r@[i]) == TerrainTile::empty_spec(r@[i].x, r@[i].y),
    {
        let mut tiles: Vec<TerrainTile> = Vec::new();
        let mut y: u32 = 0;
        while y < height
            invariant
                0 <= y <= height,
                tiles@.len() == y * width,
                forall|i: int| 0 <= i < tiles@.len() ==> (#[trigger] tiles@[i]).x == i % (width as int)
                    && tiles@[i].y == i / (width as int),
                forall|i: int| 0 <= i < tiles@.len() ==> (#[trigger] tiles@[i]) == TerrainTile::empty_spec(tiles@[i].x, tiles@[i].y),
            decreases height - y,
        {
            let mut x: u32 = 0;
            while x < width
                invariant
                    0 <= y < height,
                    0 <= x <= width,
                    tiles@.len() == y * width + x,
                    forall|i: int| 0 <= i < tiles@.len() ==> (#[trigger] tiles@[i]).x == i % (width as int)
                        && tiles@[i].y == i / (width as int),
                    forall|i: int| 0 <= i < tiles@.len() ==> (#[trigger] tiles@[i]) == TerrainTile::empty_spec(tiles@[i].x, tiles@[i].y),
                decreases width - x,
            {
                proof {
                    vstd::arithmetic::div_mod::lemma_fundamental_div_mod_converse(y * width + x, width as int, y as int, x as int);
                }
                tiles.push(TerrainTile::empty(x, y));
                x = x + 1;
            }
            proof {
                assert(y * width + width == (y + 1) * width) by (nonlinear_arith);
            }
            y = y + 1;
        }
        proof {
            assert(height * width == width * height) by (nonlinear_arith);
        }
        Terrain { width, height, tiles }
    }

    /// The number of tiles.
    pub fn len(&self) -> (r: usize)
        ensures
            r == self@.len(),
    {
        self.tiles.len()
    }

    fn get_index(&self, x: u32, y: u32) -> (r: u64)
        ensures
            r == self.index_spec(x, y),
    {
        proof {
            assert(y * self.width + x <= u64::MAX) by (nonlinear_arith)
                requires
                    0 <= y <= 0xffff_ffff,
                    0 <= self.width <= 0xffff_ffff,
                    0 <= x <= 0xffff_ffff,
            ;
            assert(0 <= y * self.width <= u64::MAX) by (nonlinear_arith)
                requires
                    0 <= y <= 0xffff_ffff,
                    0 <= self.width <= 0xffff_ffff,
            ;
        }
        y as u64 * self.width as u64 + x as u64
    }

    /// The tile that is held where the tile at `x`, `y` would be, if any is.
    pub fn get_checked(&self, x: u32, y: u32) -> (r: Option<&TerrainTile>)
        requires
            x <= self.width,
            y <= self.height,
        ensures
            self.index_spec(x, y) < self@.len() ==> r == Some(&self@[self.index_spec(x, y)]),
            self.index_spec(x, y) >= self@.len() ==> r is None,
    {
        let index = self.get_index(x, y);
        if index < self.tiles.len() as u64 {
            Some(&self.tiles[index as usize])
        } else {
            None
        }
    }

    /// The tile at `x`, `y`.
    pub fn get(&self, x: u32, y: u32) -> (r: &TerrainTile)
        requires
            x <= self.width,
            y <= self.height,
            self.index_spec(x, y) < self@.len(),
        ensures
            *r == self@[self.index_spec(x, y)],
    {
        let index = self.get_index(x, y);
        let n = self.tiles.len();
        assert(index < n);
        &self.tiles[index as usize]
    }

    /// The tile at `x`, `y`, to be changed in place.
    pub fn get_mut(&mut self, x: u32, y: u32) -> (r: &mut TerrainTile)
        requires
            x <= old(self).width,
            y <= old(self).height,
            old(self).index_spec(x, y) < old(self)@.len(),
        ensures
            *r == old(self)@[old(self).index_spec(x, y)],
            final(self)@ == old(self)@.update(old(self).index_spec(x, y), *final(r)),
            final(self).width == old(self).width,
            final(self).height == old(self).height,
    {
        let index = self.get_index(x, y);
        let n = self.tiles.len();
        assert(index < n);
        &mut self.tiles[index as usize]
    }

    /// The tiles, row after row.
    pub fn iter(&self) -> (r: &Vec<TerrainTile>)
        ensures
            r@ == self@,
    {
        &self.tiles
    }

    /// The tiles, row after row, to be changed in place.
    pub fn iter_mut(&mut self) -> (r: &mut [TerrainTile])
        ensures
            r@ == old(self)@,
            final(self)@ == final(r)@,
            final(self).width == old(self).width,
            final(self).height == old(self).height,
    {
        self.tiles.as_mut_slice()
    }

    /// The tiles from the last to the first.
    pub fn iter_rev(&self) -> (r: Vec<TerrainTile>)
        ensures
            r@ == self@.reverse(),
    {
        let mut out: Vec<TerrainTile> = Vec::new();
        let n = self.tiles.len();
        let mut i: usize = n;
        while i > 0
            invariant
                n == self.tiles@.len(),
                0 <= i <= n,
                out@.len() == n - i,
                forall|j: int| 0 <= j < out@.len() ==> out@[j] == self.tiles@[n - 1 - j],
            decreases i,
        {
            i = i - 1;
            out.push(self.tiles[i]);
        }
        proof {
            assert(out@ =~= self@.reverse());
        }
        out
    }

    fn flag_of(&self, x: u64, y: u64) -> (r: TerrainFlag)
        requires
            x <= 0x1_0000_0000,
            y <= 0x1_0000_0000,
        ensures
            r == flag_at(self@, self.width, x as int, y as int),
    {
        proof {
            assert(0 <= y * self.width <= 0x1_0000_0000 * 0xffff_ffff) by (nonlinear_arith)
                requires
                    0 <= y <= 0x1_0000_0000,
                    0 <= self.width <= 0xffff_ffff,
            ;
        }
        let index: u128 = y as u128 * self.width as u128 + x as u128;
        if index < self.tiles.len() as u128 {
            self.tiles[index as usize].class.flag()
        } else {
            TerrainFlag(EMPTY)
        }
    }

    fn adjacent(&self, tile: &TerrainTile) -> (r: Adjacent)
        ensures
            r == adjacent_spec(self@, self.width, *tile),
    {
        let x = tile.x as u64;
        let y = tile.y as u64;
        let edge = TerrainFlag(EMPTY);
        Adjacent {
            up: if y >= 1 { self.flag_of(x, y - 1) } else { edge },
            down: self.flag_of(x, y + 1),
            left: if x >= 1 { self.flag_of(x - 1, y) } else { edge },
            right: self.flag_of(x + 1, y),
            up_left: if x >= 1 && y >= 1 { self.flag_of(x - 1, y - 1) } else { edge },
            up_right: if y >= 1 { self.flag_of(x + 1, y - 1) } else { edge },
            down_left: if x >= 1 { self.flag_of(x - 1, y + 1) } else { edge },
            down_right: self.flag_of(x + 1, y + 1),
        }
    }

    /// This updates all of the tile's info based on adjacency information:
    /// every tile gets the picture that its class and the tiles around it
    /// call for, and nothing else changes.
    pub fn update_tiles(&mut self)
        requires
            old(self).drawable(),
        ensures
            final(self).width == old(self).width,
            final(self).height == old(self).height,
            final(self)@.len() == old(self)@.len(),
            forall|i: int| 0 <= i < old(self)@.len() ==> (#[trigger] final(self)@[i]) == (TerrainTile {
                info: TileInfo::new_spec(old(self)@[i].class, adjacent_spec(old(self)@, old(self).width, old(self)@[i])),
                ..old(self)@[i]
            }),
    {
        let n = self.tiles.len();
        let mut i: usize = 0;
        while i < n
            invariant
                n == old(self)@.len(),
                self@.len() == n,
                0 <= i <= n,
                self.width == old(self).width,
                self.height == old(self).height,
                old(self).drawable(),
                forall|j: int| 0 <= j < n ==> (#[trigger] self@[j]).class == old(self)@[j].class
                    && self@[j].x == old(self)@[j].x && self@[j].y == old(self)@[j].y,
                forall|j: int| i <= j < n ==> (#[trigger] self@[j]) == old(self)@[j],
                forall|j: int| 0 <= j < i ==> (#[trigger] self@[j]).info
                    == TileInfo::new_spec(old(self)@[j].class, adjacent_spec(old(self)@, old(self).width, old(self)@[j])),
            decreases n - i,
        {
            let tile = self.tiles[i];
            let adjacent = self.adjacent(&tile);
            proof {
                assert(adjacent == adjacent_spec(old(self)@, old(self).width, old(self)@[i as int]));
                assert(TileInfo::drawable(old(self)@[i as int].class));
            }
            let info = TileInfo::new(&tile.class, &adjacent);
            self.tiles.set(i, TerrainTile { x: tile.x, y: tile.y, class: tile.class, info });
            i = i + 1;
        }
    }
}

} // verus!
