//! The ways in which a scene can be built or driven wrongly.

use vstd::prelude::*;

verus! {

/// Why a layout pass could not be completed.
///
/// Each of these is a mistake in how the tree was built, never a condition
/// of the data: a caller that meets one has no sensible way to go on.
#[derive(Clone, Copy, Debug, PartialEq, Eq, Structural)]
pub enum LayoutError {
    /// A length is relative to the parent's width, which is not known.
    ParentWidthUnknown,
    /// A length is relative to the parent's height, which is not known.
    ParentHeightUnknown,
    /// A length is relative to the node's smallest width, which has not been
    /// calculated.
    SmallestWidthUnknown,
    /// A length is relative to the node's smallest height, which has not been
    /// calculated.
    SmallestHeightUnknown,
    /// A child of a row or column is sized along the wrong axis of its parent.
    UnsupportedAxis,
    /// A measured size still depends on its own content.
    Unresolved,
    /// The width that a text may fill depends on its parent.
    TextWidthUnknown,
    /// The width that a text may fill depends on the height of its parent.
    TextHeightUnknown,
    /// The width that a text may fill depends on its own height.
    TextSmallestHeightUnknown,
    /// The tiles of a font do not fit into its texture's coordinates.
    FontTooLarge,
    /// A sprite has no palette, but its spritesheet needs one.
    MissingPalette,
    /// A sprite has a palette, but its spritesheet takes none.
    UnexpectedPalette,
    /// A grid was built without its cell size.
    MissingGridSize,
    /// A border grid was built without its nine children.
    MissingQuadrants,
    /// A border grid was built without its border size.
    MissingBorderSize,
    /// A text was built without its character size.
    MissingCharSize,
    /// A text was built without its font.
    MissingFont,
    /// A sprite was built without its spritesheet.
    MissingSpritesheet,
    /// A node's order came out below one.
    OrderTooLow,
    /// The measurement handed to the arrangement does not belong to the node.
    Mismatch,
}

impl LayoutError {
    /// The sentence that describes the mistake, as characters.
    pub open spec fn message_spec(self) -> Seq<char> {
        match self {
            LayoutError::ParentWidthUnknown => "Cannot use ParentWidth because the parent's width is unknown."@,
            LayoutError::ParentHeightUnknown => "Cannot use ParentHeight because the parent's height is unknown."@,
            LayoutError::SmallestWidthUnknown => "Cannot use SmallestWidth because the node's smallest width hasn't been calculated yet."@,
            LayoutError::SmallestHeightUnknown => "Cannot use SmallestHeight because the node's smallest height hasn't been calculated yet."@,
            LayoutError::UnsupportedAxis => "Cannot size a child along the other axis of its row or column"@,
            LayoutError::Unresolved => "UNEXPECTED INTERNAL BUG, PLEASE REPORT THIS"@,
            LayoutError::TextWidthUnknown => "BitmapText width is unknown"@,
            LayoutError::TextHeightUnknown => "BitmapText height is unknown"@,
            LayoutError::TextSmallestHeightUnknown => "BitmapText smallest height is unknown"@,
            LayoutError::FontTooLarge => "BitmapFont tiles are out of range"@,
            LayoutError::MissingPalette => "Sprite is missing palette"@,
            LayoutError::UnexpectedPalette => "Spritesheet does not support palette"@,
            LayoutError::MissingGridSize => "Grid is missing grid_size"@,
            LayoutError::MissingQuadrants => "BorderGrid is missing quadrants"@,
            LayoutError::MissingBorderSize => "BorderGrid is missing border_size"@,
            LayoutError::MissingCharSize => "BitmapText is missing char_size"@,
            LayoutError::MissingFont => "BitmapText is missing font"@,
            LayoutError::MissingSpritesheet => "Sprite is missing spritesheet"@,
            LayoutError::OrderTooLow => "Order cannot be lower than 1.0"@,
            LayoutError::Mismatch => "The measurement does not belong to this node"@,
        }
    }

    /// A sentence that describes the mistake.
    pub fn message(&self) -> (text: &'static str)
        ensures
            text@ == self.message_spec(),
    {
        match self {
            LayoutError::ParentWidthUnknown => "Cannot use ParentWidth because the parent's width is unknown.",
            LayoutError::ParentHeightUnknown => "Cannot use ParentHeight because the parent's height is unknown.",
            LayoutError::SmallestWidthUnknown => "Cannot use SmallestWidth because the node's smallest width hasn't been calculated yet.",
            LayoutError::SmallestHeightUnknown => "Cannot use SmallestHeight because the node's smallest height hasn't been calculated yet.",
            LayoutError::UnsupportedAxis => "Cannot size a child along the other axis of its row or column",
            LayoutError::Unresolved => "UNEXPECTED INTERNAL BUG, PLEASE REPORT THIS",
            LayoutError::TextWidthUnknown => "BitmapText width is unknown",
            LayoutError::TextHeightUnknown => "BitmapText height is unknown",
            LayoutError::TextSmallestHeightUnknown => "BitmapText smallest height is unknown",
            LayoutError::FontTooLarge => "BitmapFont tiles are out of range",
            LayoutError::MissingPalette => "Sprite is missing palette",
            LayoutError::UnexpectedPalette => "Spritesheet does not support palette",
            LayoutError::MissingGridSize => "Grid is missing grid_size",
            LayoutError::MissingQuadrants => "BorderGrid is missing quadrants",
            LayoutError::MissingBorderSize => "BorderGrid is missing border_size",
            LayoutError::MissingCharSize => "BitmapText is missing char_size",
            LayoutError::MissingFont => "BitmapText is missing font",
            LayoutError::MissingSpritesheet => "Sprite is missing spritesheet",
            LayoutError::OrderTooLow => "Order cannot be lower than 1.0",
            LayoutError::Mismatch => "The measurement does not belong to this node",
        }
    }
}

} // verus!
