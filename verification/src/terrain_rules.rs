//! The tables that choose the picture of a river, sea or shoal tile from
//! the tiles around it. Within a table the first rule that matches decides.

use vstd::prelude::*;
use crate::terrain::{TerrainRule, rule, rule_spec};
use crate::terrain::{ANY, BRIDGE, EMPTY, GROUND, RIVER, SEA, SHOAL, WATER};

verus! {

/// The sea, the shoal and the bridge: what a sea tile borders on.
pub const BORDER: u32 = SEA | SHOAL | BRIDGE;

/// The rules for a river tile, in the order in which they are tried.
pub open spec fn river_rules_spec() -> Seq<TerrainRule> {
    seq![
        rule_spec(7, 7, GROUND | EMPTY, GROUND | EMPTY, GROUND | EMPTY, GROUND | EMPTY, ANY, ANY, ANY, ANY),
        rule_spec(7, 4, WATER, RIVER, WATER, WATER, WATER, WATER, GROUND, GROUND),
        rule_spec(7, 5, RIVER, RIVER, GROUND, GROUND, ANY, ANY, ANY, ANY),
        rule_spec(7, 6, RIVER, WATER, WATER, WATER, GROUND, GROUND, WATER, WATER),
        rule_spec(4, 7, WATER, WATER, WATER, RIVER, WATER, GROUND, WATER, GROUND),
        rule_spec(5, 7, GROUND, GROUND, RIVER, RIVER, ANY, ANY, ANY, ANY),
        rule_spec(6, 7, WATER, WATER, RIVER, WATER, GROUND, WATER, GROUND, WATER),
        rule_spec(4, 4, GROUND, RIVER, GROUND, RIVER, ANY, ANY, ANY, GROUND),
        rule_spec(6, 4, GROUND, RIVER, RIVER, GROUND, ANY, ANY, GROUND, ANY),
        rule_spec(4, 6, RIVER, GROUND, GROUND, RIVER, ANY, GROUND, ANY, ANY),
        rule_spec(6, 6, RIVER, GROUND, RIVER, GROUND, GROUND, ANY, ANY, ANY),
        rule_spec(5, 5, RIVER, RIVER, RIVER, RIVER, GROUND, GROUND, GROUND, GROUND),
    ]
}

/// Returns the rules for a river tile, in the order in which they are tried.
pub fn river_rules() -> (r: Vec<TerrainRule>)
    ensures
        r@ == river_rules_spec(),
{
    let r = vec![
        rule(7, 7, GROUND | EMPTY, GROUND | EMPTY, GROUND | EMPTY, GROUND | EMPTY, ANY, ANY, ANY, ANY),
        rule(7, 4, WATER, RIVER, WATER, WATER, WATER, WATER, GROUND, GROUND),
        rule(7, 5, RIVER, RIVER, GROUND, GROUND, ANY, ANY, ANY, ANY),
        rule(7, 6, RIVER, WATER, WATER, WATER, GROUND, GROUND, WATER, WATER),
        rule(4, 7, WATER, WATER, WATER, RIVER, WATER, GROUND, WATER, GROUND),
        rule(5, 7, GROUND, GROUND, RIVER, RIVER, ANY, ANY, ANY, ANY),
        rule(6, 7, WATER, WATER, RIVER, WATER, GROUND, WATER, GROUND, WATER),
        rule(4, 4, GROUND, RIVER, GROUND, RIVER, ANY, ANY, ANY, GROUND),
        rule(6, 4, GROUND, RIVER, RIVER, GROUND, ANY, ANY, GROUND, ANY),
        rule(4, 6, RIVER, GROUND, GROUND, RIVER, ANY, GROUND, ANY, ANY),
        rule(6, 6, RIVER, GROUND, RIVER, GROUND, GROUND, ANY, ANY, ANY),
        rule(5, 5, RIVER, RIVER, RIVER, RIVER, GROUND, GROUND, GROUND, GROUND),
    ];
    proof {
        assert(r@ =~= river_rules_spec());
    }
    r
}

/// The rules for a sea tile, in the order in which they are tried.
pub open spec fn sea_rules_spec() -> Seq<TerrainRule> {
    seq![
        rule_spec(26, 7, GROUND, GROUND, GROUND, GROUND, ANY, ANY, ANY, ANY),
        rule_spec(26, 4, GROUND, SEA | EMPTY, GROUND, GROUND, ANY, ANY, ANY, ANY),
        rule_spec(26, 5, SEA | EMPTY, SEA | EMPTY, GROUND, GROUND, ANY, ANY, ANY, ANY),
        rule_spec(26, 6, SEA | EMPTY, GROUND, GROUND, GROUND, ANY, ANY, ANY, ANY),
        rule_spec(23, 7, GROUND, GROUND, GROUND, SEA | EMPTY, ANY, ANY, ANY, ANY),
        rule_spec(24, 7, GROUND, GROUND, SEA | EMPTY, SEA | EMPTY, ANY, ANY, ANY, ANY),
        rule_spec(25, 7, GROUND, GROUND, SEA | EMPTY, GROUND, ANY, ANY, ANY, ANY),
        rule_spec(23, 4, GROUND, BORDER, GROUND, BORDER, ANY, ANY, ANY, WATER),
        rule_spec(25, 4, GROUND, BORDER, BORDER, GROUND, ANY, ANY, WATER, ANY),
        rule_spec(23, 6, BORDER, GROUND, GROUND, BORDER, ANY, WATER, ANY, ANY),
        rule_spec(25, 6, BORDER, GROUND, BORDER, GROUND, WATER, ANY, ANY, ANY),
        rule_spec(27, 4, GROUND, BORDER, GROUND, BORDER, ANY, ANY, ANY, GROUND),
        rule_spec(29, 4, GROUND, BORDER, BORDER, GROUND, ANY, ANY, GROUND, ANY),
        rule_spec(27, 6, BORDER, GROUND, GROUND, BORDER, ANY, GROUND, ANY, ANY),
        rule_spec(29, 6, BORDER, GROUND, BORDER, GROUND, GROUND, ANY, ANY, ANY),
        rule_spec(24, 4, GROUND, WATER, BORDER, BORDER, ANY, ANY, WATER, WATER),
        rule_spec(25, 5, BORDER, BORDER, WATER, GROUND, WATER, ANY, WATER, ANY),
        rule_spec(23, 5, BORDER, BORDER, GROUND, WATER, ANY, WATER, ANY, WATER),
        rule_spec(24, 6, WATER, GROUND, BORDER, BORDER, WATER, WATER, ANY, ANY),
        rule_spec(28, 4, GROUND, WATER, BORDER, BORDER, ANY, ANY, GROUND, GROUND),
        rule_spec(29, 5, BORDER, BORDER, WATER, GROUND, GROUND, ANY, GROUND, ANY),
        rule_spec(27, 5, BORDER, BORDER, GROUND, WATER, ANY, GROUND, ANY, GROUND),
        rule_spec(28, 6, WATER, GROUND, BORDER, BORDER, GROUND, GROUND, ANY, ANY),
        rule_spec(32, 4, GROUND, WATER, BORDER, BORDER, ANY, ANY, WATER, GROUND),
        rule_spec(33, 4, GROUND, WATER, BORDER, BORDER, ANY, ANY, GROUND, WATER),
        rule_spec(31, 4, BORDER, BORDER, WATER, GROUND, WATER, ANY, GROUND, ANY),
        rule_spec(31, 5, BORDER, BORDER, WATER, GROUND, GROUND, ANY, WATER, ANY),
        rule_spec(30, 4, BORDER, BORDER, GROUND, WATER, ANY, WATER, ANY, GROUND),
        rule_spec(30, 5, BORDER, BORDER, GROUND, WATER, ANY, GROUND, ANY, WATER),
        rule_spec(32, 5, WATER, GROUND, BORDER, BORDER, WATER, GROUND, ANY, ANY),
        rule_spec(33, 5, WATER, GROUND, BORDER, BORDER, GROUND, WATER, ANY, ANY),
        rule_spec(24, 5, WATER, WATER, WATER, WATER, WATER, WATER, WATER, WATER),
        rule_spec(38, 4, WATER, WATER, WATER, WATER, WATER, WATER, WATER, GROUND),
        rule_spec(40, 4, WATER, WATER, WATER, WATER, WATER, WATER, GROUND, WATER),
        rule_spec(40, 5, WATER, WATER, WATER, WATER, GROUND, WATER, WATER, WATER),
        rule_spec(38, 5, WATER, WATER, WATER, WATER, WATER, GROUND, WATER, WATER),
        rule_spec(36, 4, WATER, WATER, WATER, WATER, WATER, GROUND, WATER, GROUND),
        rule_spec(37, 4, WATER, WATER, WATER, WATER, GROUND, WATER, GROUND, WATER),
        rule_spec(39, 4, WATER, WATER, WATER, WATER, WATER, WATER, GROUND, GROUND),
        rule_spec(39, 5, WATER, WATER, WATER, WATER, GROUND, GROUND, WATER, WATER),
        rule_spec(36, 5, WATER, WATER, WATER, WATER, WATER, GROUND, GROUND, WATER),
        rule_spec(37, 5, WATER, WATER, WATER, WATER, GROUND, WATER, WATER, GROUND),
        rule_spec(34, 4, WATER, WATER, WATER, WATER, GROUND, GROUND, WATER, GROUND),
        rule_spec(35, 4, WATER, WATER, WATER, WATER, GROUND, GROUND, GROUND, WATER),
        rule_spec(34, 5, WATER, WATER, WATER, WATER, WATER, GROUND, GROUND, GROUND),
        rule_spec(35, 5, WATER, WATER, WATER, WATER, GROUND, WATER, GROUND, GROUND),
        rule_spec(28, 5, WATER, WATER, WATER, WATER, GROUND, GROUND, GROUND, GROUND),
    ]
}

/// Returns the rules for a sea tile, in the order in which they are tried.
pub fn sea_rules() -> (r: Vec<TerrainRule>)
    ensures
        r@ == sea_rules_spec(),
{
    let r = vec![
        rule(26, 7, GROUND, GROUND, GROUND, GROUND, ANY, ANY, ANY, ANY),
        rule(26, 4, GROUND, SEA | EMPTY, GROUND, GROUND, ANY, ANY, ANY, ANY),
        rule(26, 5, SEA | EMPTY, SEA | EMPTY, GROUND, GROUND, ANY, ANY, ANY, ANY),
        rule(26, 6, SEA | EMPTY, GROUND, GROUND, GROUND, ANY, ANY, ANY, ANY),
        rule(23, 7, GROUND, GROUND, GROUND, SEA | EMPTY, ANY, ANY, ANY, ANY),
        rule(24, 7, GROUND, GROUND, SEA | EMPTY, SEA | EMPTY, ANY, ANY, ANY, ANY),
        rule(25, 7, GROUND, GROUND, SEA | EMPTY, GROUND, ANY, ANY, ANY, ANY),
        rule(23, 4, GROUND, BORDER, GROUND, BORDER, ANY, ANY, ANY, WATER),
        rule(25, 4, GROUND, BORDER, BORDER, GROUND, ANY, ANY, WATER, ANY),
        rule(23, 6, BORDER, GROUND, GROUND, BORDER, ANY, WATER, ANY, ANY),
        rule(25, 6, BORDER, GROUND, BORDER, GROUND, WATER, ANY, ANY, ANY),
        rule(27, 4, GROUND, BORDER, GROUND, BORDER, ANY, ANY, ANY, GROUND),
        rule(29, 4, GROUND, BORDER, BORDER, GROUND, ANY, ANY, GROUND, ANY),
        rule(27, 6, BORDER, GROUND, GROUND, BORDER, ANY, GROUND, ANY, ANY),
        rule(29, 6, BORDER, GROUND, BORDER, GROUND, GROUND, ANY, ANY, ANY),
        rule(24, 4, GROUND, WATER, BORDER, BORDER, ANY, ANY, WATER, WATER),
        rule(25, 5, BORDER, BORDER, WATER, GROUND, WATER, ANY, WATER, ANY),
        rule(23, 5, BORDER, BORDER, GROUND, WATER, ANY, WATER, ANY, WATER),
        rule(24, 6, WATER, GROUND, BORDER, BORDER, WATER, WATER, ANY, ANY),
        rule(28, 4, GROUND, WATER, BORDER, BORDER, ANY, ANY, GROUND, GROUND),
        rule(29, 5, BORDER, BORDER, WATER, GROUND, GROUND, ANY, GROUND, ANY),
        rule(27, 5, BORDER, BORDER, GROUND, WATER, ANY, GROUND, ANY, GROUND),
        rule(28, 6, WATER, GROUND, BORDER, BORDER, GROUND, GROUND, ANY, ANY),
        rule(32, 4, GROUND, WATER, BORDER, BORDER, ANY, ANY, WATER, GROUND),
        rule(33, 4, GROUND, WATER, BORDER, BORDER, ANY, ANY, GROUND, WATER),
        rule(31, 4, BORDER, BORDER, WATER, GROUND, WATER, ANY, GROUND, ANY),
        rule(31, 5, BORDER, BORDER, WATER, GROUND, GROUND, ANY, WATER, ANY),
        rule(30, 4, BORDER, BORDER, GROUND, WATER, ANY, WATER, ANY, GROUND),
        rule(30, 5, BORDER, BORDER, GROUND, WATER, ANY, GROUND, ANY, WATER),
        rule(32, 5, WATER, GROUND, BORDER, BORDER, WATER, GROUND, ANY, ANY),
        rule(33, 5, WATER, GROUND, BORDER, BORDER, GROUND, WATER, ANY, ANY),
        rule(24, 5, WATER, WATER, WATER, WATER, WATER, WATER, WATER, WATER),
        rule(38, 4, WATER, WATER, WATER, WATER, WATER, WATER, WATER, GROUND),
        rule(40, 4, WATER, WATER, WATER, WATER, WATER, WATER, GROUND, WATER),
        rule(40, 5, WATER, WATER, WATER, WATER, GROUND, WATER, WATER, WATER),
        rule(38, 5, WATER, WATER, WATER, WATER, WATER, GROUND, WATER, WATER),
        rule(36, 4, WATER, WATER, WATER, WATER, WATER, GROUND, WATER, GROUND),
        rule(37, 4, WATER, WATER, WATER, WATER, GROUND, WATER, GROUND, WATER),
        rule(39, 4, WATER, WATER, WATER, WATER, WATER, WATER, GROUND, GROUND),
        rule(39, 5, WATER, WATER, WATER, WATER, GROUND, GROUND, WATER, WATER),
        rule(36, 5, WATER, WATER, WATER, WATER, WATER, GROUND, GROUND, WATER),
        rule(37, 5, WATER, WATER, WATER, WATER, GROUND, WATER, WATER, GROUND),
        rule(34, 4, WATER, WATER, WATER, WATER, GROUND, GROUND, WATER, GROUND),
        rule(35, 4, WATER, WATER, WATER, WATER, GROUND, GROUND, GROUND, WATER),
        rule(34, 5, WATER, WATER, WATER, WATER, WATER, GROUND, GROUND, GROUND),
        rule(35, 5, WATER, WATER, WATER, WATER, GROUND, WATER, GROUND, GROUND),
        rule(28, 5, WATER, WATER, WATER, WATER, GROUND, GROUND, GROUND, GROUND),
    ];
    proof {
        assert(r@ =~= sea_rules_spec());
    }
    r
}

/// The rules for a shoal tile, in the order in which they are tried.
pub open spec fn shoal_rules_spec() -> Seq<TerrainRule> {
    seq![
        rule_spec(11, 7, GROUND, GROUND, GROUND, GROUND, ANY, ANY, ANY, ANY),
        rule_spec(11, 4, GROUND, SHOAL | EMPTY, GROUND, GROUND, ANY, ANY, ANY, ANY),
        rule_spec(11, 5, SHOAL | EMPTY, SHOAL | EMPTY, GROUND, GROUND, ANY, ANY, ANY, ANY),
        rule_spec(11, 6, SHOAL | EMPTY, GROUND, GROUND, GROUND, ANY, ANY, ANY, ANY),
        rule_spec(8, 7, GROUND, GROUND, GROUND, SHOAL | EMPTY, ANY, ANY, ANY, ANY),
        rule_spec(9, 7, GROUND, GROUND, SHOAL | EMPTY, SHOAL | EMPTY, ANY, ANY, ANY, ANY),
        rule_spec(10, 7, GROUND, GROUND, SHOAL | EMPTY, GROUND, ANY, ANY, ANY, ANY),
        rule_spec(8, 4, GROUND, SHOAL, GROUND, SHOAL, ANY, ANY, ANY, WATER),
        rule_spec(10, 4, GROUND, SHOAL, SHOAL, GROUND, ANY, ANY, WATER, ANY),
        rule_spec(10, 6, SHOAL, GROUND, SHOAL, GROUND, WATER, ANY, ANY, ANY),
        rule_spec(8, 6, SHOAL, GROUND, GROUND, SHOAL, ANY, WATER, ANY, ANY),
        rule_spec(15, 4, GROUND, SHOAL, GROUND, SEA, ANY, ANY, ANY, WATER),
        rule_spec(16, 4, GROUND, SEA, SHOAL, GROUND, ANY, ANY, WATER, ANY),
        rule_spec(16, 5, SHOAL, GROUND, SEA, GROUND, WATER, ANY, ANY, ANY),
        rule_spec(15, 5, SHOAL, GROUND, GROUND, SEA, ANY, WATER, ANY, ANY),
        rule_spec(17, 4, GROUND, SEA, GROUND, SHOAL, ANY, ANY, ANY, WATER),
        rule_spec(18, 4, GROUND, SHOAL, SEA, GROUND, ANY, ANY, WATER, ANY),
        rule_spec(18, 5, SEA, GROUND, SHOAL, GROUND, WATER, ANY, ANY, ANY),
        rule_spec(17, 5, SEA, GROUND, GROUND, SHOAL, ANY, WATER, ANY, ANY),
        rule_spec(12, 4, GROUND, SEA, GROUND, SEA, ANY, ANY, ANY, WATER),
        rule_spec(14, 4, GROUND, SEA, SEA, GROUND, ANY, ANY, WATER, ANY),
        rule_spec(14, 6, SEA, GROUND, SEA, GROUND, WATER, ANY, ANY, ANY),
        rule_spec(12, 6, SEA, GROUND, GROUND, SEA, ANY, WATER, ANY, ANY),
        rule_spec(9, 4, GROUND, WATER, SHOAL, SHOAL, ANY, ANY, WATER, WATER),
        rule_spec(10, 5, SHOAL, SHOAL, WATER, GROUND, WATER, ANY, WATER, ANY),
        rule_spec(8, 5, SHOAL, SHOAL, GROUND, WATER, ANY, WATER, ANY, WATER),
        rule_spec(9, 6, WATER, GROUND, SHOAL, SHOAL, WATER, WATER, ANY, ANY),
        rule_spec(19, 4, GROUND, WATER, SHOAL, SEA, ANY, ANY, WATER, WATER),
        rule_spec(20, 4, GROUND, WATER, SEA, SHOAL, ANY, ANY, WATER, WATER),
        rule_spec(22, 4, SEA, SHOAL, WATER, GROUND, WATER, ANY, WATER, ANY),
        rule_spec(22, 5, SHOAL, SEA, WATER, GROUND, WATER, ANY, WATER, ANY),
        rule_spec(21, 4, SEA, SHOAL, GROUND, WATER, ANY, WATER, ANY, WATER),
        rule_spec(21, 5, SHOAL, SEA, GROUND, WATER, ANY, WATER, ANY, WATER),
        rule_spec(19, 5, WATER, GROUND, SHOAL, SEA, WATER, WATER, ANY, ANY),
        rule_spec(20, 5, WATER, GROUND, SEA, SHOAL, WATER, WATER, ANY, ANY),
        rule_spec(13, 4, GROUND, WATER, SEA, SEA, ANY, ANY, WATER, WATER),
        rule_spec(14, 5, SEA, SEA, WATER, GROUND, WATER, ANY, WATER, ANY),
        rule_spec(12, 5, SEA, SEA, GROUND, WATER, ANY, WATER, ANY, WATER),
        rule_spec(13, 6, WATER, GROUND, SEA, SEA, WATER, WATER, ANY, ANY),
    ]
}

/// Returns the rules for a shoal tile, in the order in which they are tried.
pub fn shoal_rules() -> (r: Vec<TerrainRule>)
    ensures
        r@ == shoal_rules_spec(),
{
    let r = vec![
        rule(11, 7, GROUND, GROUND, GROUND, GROUND, ANY, ANY, ANY, ANY),
        rule(11, 4, GROUND, SHOAL | EMPTY, GROUND, GROUND, ANY, ANY, ANY, ANY),
        rule(11, 5, SHOAL | EMPTY, SHOAL | EMPTY, GROUND, GROUND, ANY, ANY, ANY, ANY),
        rule(11, 6, SHOAL | EMPTY, GROUND, GROUND, GROUND, ANY, ANY, ANY, ANY),
        rule(8, 7, GROUND, GROUND, GROUND, SHOAL | EMPTY, ANY, ANY, ANY, ANY),
        rule(9, 7, GROUND, GROUND, SHOAL | EMPTY, SHOAL | EMPTY, ANY, ANY, ANY, ANY),
        rule(10, 7, GROUND, GROUND, SHOAL | EMPTY, GROUND, ANY, ANY, ANY, ANY),
        rule(8, 4, GROUND, SHOAL, GROUND, SHOAL, ANY, ANY, ANY, WATER),
        rule(10, 4, GROUND, SHOAL, SHOAL, GROUND, ANY, ANY, WATER, ANY),
        rule(10, 6, SHOAL, GROUND, SHOAL, GROUND, WATER, ANY, ANY, ANY),
        rule(8, 6, SHOAL, GROUND, GROUND, SHOAL, ANY, WATER, ANY, ANY),
        rule(15, 4, GROUND, SHOAL, GROUND, SEA, ANY, ANY, ANY, WATER),
        rule(16, 4, GROUND, SEA, SHOAL, GROUND, ANY, ANY, WATER, ANY),
        rule(16, 5, SHOAL, GROUND, SEA, GROUND, WATER, ANY, ANY, ANY),
        rule(15, 5, SHOAL, GROUND, GROUND, SEA, ANY, WATER, ANY, ANY),
        rule(17, 4, GROUND, SEA, GROUND, SHOAL, ANY, ANY, ANY, WATER),
        rule(18, 4, GROUND, SHOAL, SEA, GROUND, ANY, ANY, WATER, ANY),
        rule(18, 5, SEA, GROUND, SHOAL, GROUND, WATER, ANY, ANY, ANY),
        rule(17, 5, SEA, GROUND, GROUND, SHOAL, ANY, WATER, ANY, ANY),
        rule(12, 4, GROUND, SEA, GROUND, SEA, ANY, ANY, ANY, WATER),
        rule(14, 4, GROUND, SEA, SEA, GROUND, ANY, ANY, WATER, ANY),
        rule(14, 6, SEA, GROUND, SEA, GROUND, WATER, ANY, ANY, ANY),
        rule(12, 6, SEA, GROUND, GROUND, SEA, ANY, WATER, ANY, ANY),
        rule(9, 4, GROUND, WATER, SHOAL, SHOAL, ANY, ANY, WATER, WATER),
        rule(10, 5, SHOAL, SHOAL, WATER, GROUND, WATER, ANY, WATER, ANY),
        rule(8, 5, SHOAL, SHOAL, GROUND, WATER, ANY, WATER, ANY, WATER),
        rule(9, 6, WATER, GROUND, SHOAL, SHOAL, WATER, WATER, ANY, ANY),
        rule(19, 4, GROUND, WATER, SHOAL, SEA, ANY, ANY, WATER, WATER),
        rule(20, 4, GROUND, WATER, SEA, SHOAL, ANY, ANY, WATER, WATER),
        rule(22, 4, SEA, SHOAL, WATER, GROUND, WATER, ANY, WATER, ANY),
        rule(22, 5, SHOAL, SEA, WATER, GROUND, WATER, ANY, WATER, ANY),
        rule(21, 4, SEA, SHOAL, GROUND, WATER, ANY, WATER, ANY, WATER),
        rule(21, 5, SHOAL, SEA, GROUND, WATER, ANY, WATER, ANY, WATER),
        rule(19, 5, WATER, GROUND, SHOAL, SEA, WATER, WATER, ANY, ANY),
        rule(20, 5, WATER, GROUND, SEA, SHOAL, WATER, WATER, ANY, ANY),
        rule(13, 4, GROUND, WATER, SEA, SEA, ANY, ANY, WATER, WATER),
        rule(14, 5, SEA, SEA, WATER, GROUND, WATER, ANY, WATER, ANY),
        rule(12, 5, SEA, SEA, GROUND, WATER, ANY, WATER, ANY, WATER),
        rule(13, 6, WATER, GROUND, SEA, SEA, WATER, WATER, ANY, ANY),
    ];
    proof {
        assert(r@ =~= shoal_rules_spec());
    }
    r
}

} // verus!
