//! The arrangement pass: the place of every visible node on the screen,
//! found from the root down, and what the renderer is to draw for the leaves.

use vstd::prelude::*;
use crate::number::{Percentage, UNIT, larger, larger_spec};
use crate::bitmap_text::{BitmapFontState, BitmapText, ColorRgb};
use crate::border_grid::Places;
use crate::error::LayoutError;
use crate::flex::Axis;
use crate::handles::{Handle, Handles};
use crate::location::ScreenSize;
use crate::measure::{agrees, child_sizes_spec, children_agree, declared_spec, frame_spec, grid_cell_spec, lemma_agreed_sizes, lemma_agrees_size, measure, metrics, metrics_spec, shrunk_spec, size_spec, text_layout_spec};
use crate::measured::{Glyph, Measured, lemma_resolved, real_sizes, real_sizes_spec, resolved, sizes};
use crate::node::{BorderGrid, Column, Grid, Node, Row, Stack, Wrap, visible_count, visible_count_spec};
use crate::sprite::{GlyphInstance, Instance, Sprite, SpriteInstance, SpritesheetState};
use crate::units::{RealLocation, RealSize, SmallestSize};

verus! {

/// What a layout pass is given besides the scene: the size of the screen
/// and the assets that the renderer has loaded.
pub struct Env {
    pub screen: ScreenSize,
    pub spritesheets: Handles<SpritesheetState>,
    pub fonts: Handles<BitmapFontState>,
}

/// The kinds of node that the renderer draws.
#[derive(Clone, Copy, Debug, PartialEq, Eq, Structural)]
pub enum LeafKind {
    Sprite,
    Text,
}

/// A node that was drawn in the last arrangement pass, and what is needed
/// to draw it again in the same place.
#[derive(Clone, Copy, Debug, PartialEq, Eq, Structural)]
pub struct Rendered {
    /// How many nodes the pass had visited before it came to this one.
    pub node: u64,
    pub kind: LeafKind,
    /// The place that the node's parent gave to it.
    pub parent: RealLocation,
    /// The smallest size of the node.
    pub smallest: RealSize,
    /// The highest order that had been given out when the node was placed.
    pub max_order: Percentage,
    /// The order that the node was drawn with.
    pub order: Percentage,
    /// Where among the sprites to draw the node's own is, if it has one.
    pub instance: Option<usize>,
}

/// The state of an arrangement pass, as specifications see it.
pub struct PassState {
    /// The highest order that has been given out: at least one.
    pub max_order: Percentage,
    /// The number of nodes that have been visited.
    pub visited: u64,
    /// The nodes that were drawn, in the order in which they were visited.
    pub rendered: Seq<Rendered>,
    /// The sprites to draw.
    pub sprites: Seq<SpriteInstance>,
    /// The characters to draw.
    pub glyphs: Seq<GlyphInstance>,
}

/// The state of an arrangement pass.
pub struct Pass {
    pub max_order: Percentage,
    pub visited: u64,
    pub rendered: Vec<Rendered>,
    pub sprites: Vec<SpriteInstance>,
    pub glyphs: Vec<GlyphInstance>,
}

impl View for Pass {
    type V = PassState;

    open spec fn view(&self) -> PassState {
        PassState {
            max_order: self.max_order,
            visited: self.visited,
            rendered: self.rendered@,
            sprites: self.sprites@,
            glyphs: self.glyphs@,
        }
    }
}

impl PassState {
    /// The state before the first node.
    pub open spec fn start_spec() -> Self {
        PassState { max_order: UNIT, visited: 0, rendered: Seq::empty(), sprites: Seq::empty(), glyphs: Seq::empty() }
    }

    /// The state when one more node has been visited.
    pub open spec fn enter_spec(self) -> Self {
        PassState {
            visited: if self.visited < u64::MAX { (self.visited + 1) as u64 } else { self.visited },
            ..self
        }
    }

    /// The state when a node of order `order` has been drawn.
    pub open spec fn raise_spec(self, order: Percentage) -> Self {
        PassState { max_order: larger_spec(self.max_order as int, order as int) as i64, ..self }
    }
}

impl Pass {
    /// A pass that has not begun.
    pub fn new() -> (r: Self)
        ensures
            r@ == PassState::start_spec(),
    {
        Pass { max_order: UNIT, visited: 0, rendered: Vec::new(), sprites: Vec::new(), glyphs: Vec::new() }
    }

    /// The highest order that has been given out.
    pub fn get_max_order(&self) -> (r: Percentage)
        ensures
            r == self@.max_order,
    {
        self.max_order
    }

    /// Raises the highest order to `order`, unless it is higher already.
    pub fn set_max_order(&mut self, order: Percentage)
        ensures
            final(self)@ == old(self)@.raise_spec(order),
    {
        self.max_order = larger(self.max_order, order);
    }

    /// Counts one more node as visited and returns how many were before.
    pub fn enter(&mut self) -> (r: u64)
        ensures
            r == old(self)@.visited,
            final(self)@ == old(self)@.enter_spec(),
    {
        let ordinal = self.visited;
        if self.visited < u64::MAX {
            self.visited = self.visited + 1;
        }
        ordinal
    }
}

/// The sprite that is drawn for `sprite`, if its spritesheet is loaded. A
/// sprite without spritesheet is an error, and so is a palette where the
/// spritesheet takes none, or none where it needs one.
pub open spec fn sprite_instance_spec(sprite: Sprite, instance: Instance, env: Env) -> Result<Option<SpriteInstance>, LayoutError> {
    match sprite.spritesheet {
        None => Err(LayoutError::MissingSpritesheet),
        Some(sheet) => match env.spritesheets.get_spec(sheet.handle) {
            None => Ok(None),
            Some(state) => if state.has_palette && sprite.palette is None {
                Err(LayoutError::MissingPalette)
            } else if !state.has_palette && sprite.palette is Some {
                Err(LayoutError::UnexpectedPalette)
            } else {
                Ok(Some(SpriteInstance { spritesheet: sheet.handle, instance, palette: sprite.palette }))
            },
        },
    }
}

/// The pass after a sprite has been given the place `place`. A sprite that is fully transparent is passed
/// over. Any other is drawn above what its order says, raises the highest
/// order to its own, and is remembered.
#[verifier::opaque]
pub open spec fn arrange_sprite_spec(sprite: Sprite, place: RealLocation, env: Env, state: PassState) -> Result<PassState, LayoutError> {
    if sprite.alpha == 0 {
        Ok(state.enter_spec())
    } else {
        match sprite.location.size.smallest_size_spec(env.screen).real_size_spec() {
            Err(e) => Err(e),
            Ok(smallest) => match sprite.instance_spec(place, smallest, env.screen, state.max_order) {
                Err(e) => Err(e),
                Ok(instance) => match sprite_instance_spec(sprite, instance, env) {
                    Err(e) => Err(e),
                    Ok(drawn) => {
                        let record = Rendered {
                            node: state.visited,
                            kind: LeafKind::Sprite,
                            parent: place,
                            smallest,
                            max_order: state.max_order,
                            order: instance.order,
                            instance: match drawn {
                                Some(_) => Some(state.sprites.len() as usize),
                                None => None,
                            },
                        };
                        Ok(PassState {
                            rendered: state.rendered.push(record),
                            sprites: match drawn {
                                Some(sprite_instance) => state.sprites.push(sprite_instance),
                                None => state.sprites,
                            },
                            ..state.enter_spec().raise_spec(instance.order)
                        })
                    },
                },
            },
        }
    }
}

/// What is drawn for one glyph of a text whose content is at `this`. A
/// character without a tile in the font is an error, and so is an order
/// below one.
pub open spec fn glyph_instance_spec(glyph: Glyph, this: RealLocation, font: Handle, state: BitmapFontState, color: ColorRgb) -> Result<GlyphInstance, LayoutError> {
    let location = RealLocation {
        position: this.position.plus_spec(glyph.position),
        size: glyph.size,
        order: this.order,
    };
    match state.tile_spec(state.supported.replace_spec(glyph.character), 2) {
        None => Err(LayoutError::FontTooLarge),
        Some(tile) => match Instance::place_spec(location) {
            Err(e) => Err(e),
            Ok(placed) => Ok(GlyphInstance {
                font,
                instance: Instance {
                    position: placed.0,
                    size: placed.1,
                    order: this.order,
                    alpha: UNIT,
                    uv: RealSize { width: UNIT, height: UNIT },
                    tile,
                },
                color,
            }),
        },
    }
}

/// What is drawn for the first `n` glyphs of a text. The first glyph that
/// cannot be drawn decides the error.
pub open spec fn glyph_instances_spec(glyphs: Seq<Glyph>, this: RealLocation, font: Handle, state: BitmapFontState, color: ColorRgb, n: int) -> Result<Seq<GlyphInstance>, LayoutError>
    decreases n,
{
    if n <= 0 || n > glyphs.len() {
        Ok(Seq::empty())
    } else {
        match glyph_instances_spec(glyphs, this, font, state, color, n - 1) {
            Err(e) => Err(e),
            Ok(before) => match glyph_instance_spec(glyphs[n - 1], this, font, state, color) {
                Err(e) => Err(e),
                Ok(drawn) => Ok(before.push(drawn)),
            },
        }
    }
}

/// An error among the first `i` glyphs is the error of every longer prefix.
pub proof fn lemma_glyph_instances_error(glyphs: Seq<Glyph>, this: RealLocation, font: Handle, state: BitmapFontState, color: ColorRgb, i: int, n: int)
    requires
        0 <= i <= n <= glyphs.len(),
        glyph_instances_spec(glyphs, this, font, state, color, i) is Err,
    ensures
        glyph_instances_spec(glyphs, this, font, state, color, n) == glyph_instances_spec(glyphs, this, font, state, color, i),
    decreases n - i,
{
    if i < n {
        lemma_glyph_instances_error(glyphs, this, font, state, color, i, n - 1);
    }
}

/// Glyphs are only drawn with an order of at least one.
pub proof fn lemma_glyph_instances_order(glyphs: Seq<Glyph>, this: RealLocation, font: Handle, state: BitmapFontState, color: ColorRgb, n: int)
    requires
        1 <= n <= glyphs.len(),
        glyph_instances_spec(glyphs, this, font, state, color, n) is Ok,
    ensures
        this.order >= UNIT,
    decreases n,
{
    if n > 1 {
        lemma_glyph_instances_order(glyphs, this, font, state, color, n - 1);
    }
}

/// The glyphs that a text draws at `this`: those that were laid out when it
/// was measured, if there are any, else those that fit into the width of its
/// place.
pub open spec fn text_glyphs_spec(text: BitmapText, measured_parent: SmallestSize, this: RealLocation, screen: ScreenSize) -> Result<Seq<Glyph>, LayoutError> {
    let cached = if declared_spec(text.location, measured_parent, screen).is_smallest_spec() {
        match frame_spec(text.location, measured_parent, screen) {
            Ok(frame) => match text_layout_spec(text, frame.inner, screen) {
                Ok(layout) => layout.0,
                Err(_) => Seq::empty(),
            },
            Err(_) => Seq::empty(),
        }
    } else {
        Seq::empty()
    };
    if cached.len() > 0 {
        Ok(cached)
    } else {
        match metrics_spec(text, this.size.smallest_size_spec(), Some(this.size.width), screen) {
            Err(e) => Err(e),
            Ok(metrics) => Ok(metrics.layout_spec(text.text@).0),
        }
    }
}

/// The pass after a text that was measured in `measured_parent` has been
/// given the place `place`. A text whose font is not loaded, or which has no
/// glyphs, is passed over. Any other has its glyphs drawn, is remembered,
/// and raises the highest order to its own.
#[verifier::opaque]
pub open spec fn arrange_text_spec(text: BitmapText, measured_parent: SmallestSize, place: RealLocation, env: Env, state: PassState) -> Result<PassState, LayoutError> {
    match text.font {
        None => Err(LayoutError::MissingFont),
        Some(font) => match env.fonts.get_spec(font.handle) {
            None => Ok(state.enter_spec()),
            Some(font_state) => match size_spec(Node::BitmapText(text), measured_parent, env.screen) {
                Err(e) => Err(e),
                Ok(size) => match size.real_size_spec() {
                    Err(e) => Err(e),
                    Ok(smallest) => {
                        let this = text.location.children_location_spec(place, smallest, env.screen, state.max_order);
                        match text_glyphs_spec(text, measured_parent, this, env.screen) {
                            Err(e) => Err(e),
                            Ok(glyphs) => if glyphs.len() == 0 {
                                Ok(state.enter_spec())
                            } else {
                                match glyph_instances_spec(glyphs, this, font.handle, font_state, text.text_color, glyphs.len() as int) {
                                    Err(e) => Err(e),
                                    Ok(drawn) => {
                                        let record = Rendered {
                                            node: state.visited,
                                            kind: LeafKind::Text,
                                            parent: place,
                                            smallest,
                                            max_order: state.max_order,
                                            order: this.order,
                                            instance: None,
                                        };
                                        Ok(PassState {
                                            rendered: state.rendered.push(record),
                                            glyphs: state.glyphs + drawn,
                                            ..state.enter_spec().raise_spec(this.order)
                                        })
                                    },
                                }
                            },
                        }
                    },
                },
            },
        },
    }
}

/// Where the content of a node is on the screen: the place that its
/// declaration asks for inside `place`, for the size that was measured.
#[verifier::opaque]
pub open spec fn this_spec(node: Node, location: crate::location::Location, measured_parent: SmallestSize, place: RealLocation, env: Env, state: PassState) -> Result<RealLocation, LayoutError> {
    match size_spec(node, measured_parent, env.screen) {
        Err(e) => Err(e),
        Ok(size) => match size.real_size_spec() {
            Err(e) => Err(e),
            Ok(smallest) => Ok(location.children_location_spec(place, smallest, env.screen, state.max_order)),
        },
    }
}

/// The places of the children of a stack: the place of the stack.
#[verifier::opaque]
pub open spec fn stack_places_spec(children: Seq<Node>, this: RealLocation) -> Seq<Option<RealLocation>> {
    Seq::new(children.len(), |i: int| Some(this))
}

/// The places of the children of a row or column.
#[verifier::opaque]
pub open spec fn flex_places_spec(axis: Axis, children: Seq<Node>, child_parent: SmallestSize, this: RealLocation, screen: ScreenSize) -> Result<Seq<Option<RealLocation>>, LayoutError> {
    match child_sizes_spec(children, child_parent, screen, children.len() as int) {
        Err(e) => Err(e),
        Ok(list) => match axis.totals_spec(list, list.len() as int) {
            Err(e) => Err(e),
            Ok(totals) => Ok(Seq::new(children.len(), |i: int| axis.place_spec(this, list, totals, i))),
        },
    }
}

/// The places of the children of a wrap that had to fill `bound`.
#[verifier::opaque]
pub open spec fn wrap_places_spec(children: Seq<Node>, bound: Percentage, this: RealLocation, screen: ScreenSize) -> Result<Seq<Option<RealLocation>>, LayoutError> {
    match child_sizes_spec(children, shrunk_spec(), screen, children.len() as int) {
        Err(e) => Err(e),
        Ok(list) => match real_sizes_spec(list, list.len() as int) {
            Err(e) => Err(e),
            Ok(reals) => Ok(Seq::new(children.len(), |i: int| crate::wrap::place_spec(this, reals, bound, i))),
        },
    }
}

/// The size of the cells of a grid whose content is at `this`: as it was
/// measured, or else as the grid's own size resolves it.
#[verifier::opaque]
pub open spec fn grid_cell_at_spec(grid: Grid, measured_parent: SmallestSize, this: RealLocation, screen: ScreenSize) -> Result<RealSize, LayoutError> {
    if declared_spec(grid.location, measured_parent, screen).is_smallest_spec() {
        match frame_spec(grid.location, measured_parent, screen) {
            Err(e) => Err(e),
            Ok(frame) => grid_cell_spec(grid, frame.inner, screen),
        }
    } else {
        grid_cell_spec(grid, this.size.smallest_size_spec(), screen)
    }
}

/// The places of the children of a grid: each visible child in the cell
/// after those of the visible children before it.
#[verifier::opaque]
pub open spec fn grid_places_spec(children: Seq<Node>, cell: RealSize, this: RealLocation) -> Seq<Option<RealLocation>> {
    let columns = crate::grid::columns_spec(
        this.size.width as int,
        cell.width as int,
        visible_count_spec(children, children.len() as int),
    );
    Seq::new(
        children.len(),
        |i: int| if children[i].is_visible_spec() {
            Some(crate::grid::place_spec(this, cell, columns, visible_count_spec(children, i)))
        } else {
            None
        },
    )
}

/// The pass after a node that was measured in `measured_parent` has been
/// given the place `place`, and with it all that is visible below it.
pub open spec fn arrange_spec(node: Node, measured_parent: SmallestSize, place: RealLocation, env: Env, state: PassState) -> Result<PassState, LayoutError>
    decreases node, 0int,
{
    match node {
        Node::Sprite(sprite) => arrange_sprite_spec(sprite, place, env, state),
        Node::BitmapText(text) => arrange_text_spec(text, measured_parent, place, env, state),
        Node::Stack(stack) => arrange_stack_spec(stack, measured_parent, place, env, state),
        Node::Row(row) => arrange_row_spec(row, measured_parent, place, env, state),
        Node::Column(column) => arrange_column_spec(column, measured_parent, place, env, state),
        Node::Wrap(wrap) => arrange_wrap_spec(wrap, measured_parent, place, env, state),
        Node::Grid(grid) => arrange_grid_spec(grid, measured_parent, place, env, state),
        Node::BorderGrid(grid) => arrange_border_grid_spec(grid, measured_parent, place, env, state),
        Node::Optional(child) => match child {
            Some(inner) => arrange_spec(*inner, measured_parent, place, env, state.enter_spec()),
            None => Ok(state.enter_spec()),
        },
    }
}

/// The pass after a stack: every visible child is given the place of the
/// stack's content.
pub open spec fn arrange_stack_spec(stack: Stack, measured_parent: SmallestSize, place: RealLocation, env: Env, state: PassState) -> Result<PassState, LayoutError>
    decreases stack, 0int,
{
    match this_spec(Node::Stack(stack), stack.location, measured_parent, place, env, state) {
        Err(e) => Err(e),
        Ok(this) => match frame_spec(stack.location, measured_parent, env.screen) {
            Err(e) => Err(e),
            Ok(frame) => arrange_children_spec(
                stack.children@,
                Some(frame.inner),
                stack_places_spec(stack.children@, this),
                env,
                state.enter_spec(),
                stack.children@.len() as int,
            ),
        },
    }
}

/// The pass after a row: the visible children are placed from left to
/// right.
pub open spec fn arrange_row_spec(row: Row, measured_parent: SmallestSize, place: RealLocation, env: Env, state: PassState) -> Result<PassState, LayoutError>
    decreases row, 0int,
{
    match this_spec(Node::Row(row), row.location, measured_parent, place, env, state) {
        Err(e) => Err(e),
        Ok(this) => match frame_spec(row.location, measured_parent, env.screen) {
            Err(e) => Err(e),
            Ok(frame) => {
                let child_parent = Axis::Horizontal.child_parent_spec(frame.inner);
                match flex_places_spec(Axis::Horizontal, row.children@, child_parent, this, env.screen) {
                    Err(e) => Err(e),
                    Ok(places) => arrange_children_spec(
                        row.children@,
                        Some(child_parent),
                        places,
                        env,
                        state.enter_spec(),
                        row.children@.len() as int,
                    ),
                }
            },
        },
    }
}

/// The pass after a column: the visible children are placed from top to
/// bottom.
pub open spec fn arrange_column_spec(column: Column, measured_parent: SmallestSize, place: RealLocation, env: Env, state: PassState) -> Result<PassState, LayoutError>
    decreases column, 0int,
{
    match this_spec(Node::Column(column), column.location, measured_parent, place, env, state) {
        Err(e) => Err(e),
        Ok(this) => match frame_spec(column.location, measured_parent, env.screen) {
            Err(e) => Err(e),
            Ok(frame) => {
                let child_parent = Axis::Vertical.child_parent_spec(frame.inner);
                match flex_places_spec(Axis::Vertical, column.children@, child_parent, this, env.screen) {
                    Err(e) => Err(e),
                    Ok(places) => arrange_children_spec(
                        column.children@,
                        Some(child_parent),
                        places,
                        env,
                        state.enter_spec(),
                        column.children@.len() as int,
                    ),
                }
            },
        },
    }
}

/// The pass after a wrap: the visible children are placed in the rows that
/// they were packed into.
pub open spec fn arrange_wrap_spec(wrap: Wrap, measured_parent: SmallestSize, place: RealLocation, env: Env, state: PassState) -> Result<PassState, LayoutError>
    decreases wrap, 0int,
{
    match this_spec(Node::Wrap(wrap), wrap.location, measured_parent, place, env, state) {
        Err(e) => Err(e),
        Ok(this) => match frame_spec(wrap.location, measured_parent, env.screen) {
            Err(e) => Err(e),
            Ok(frame) => match frame.inner.width.screen_spec() {
                Err(e) => Err(e),
                Ok(bound) => match wrap_places_spec(wrap.children@, bound, this, env.screen) {
                    Err(e) => Err(e),
                    Ok(places) => arrange_children_spec(
                        wrap.children@,
                        Some(shrunk_spec()),
                        places,
                        env,
                        state.enter_spec(),
                        wrap.children@.len() as int,
                    ),
                },
            },
        },
    }
}

/// The pass after a grid: each visible child is measured in its cell and
/// placed there.
pub open spec fn arrange_grid_spec(grid: Grid, measured_parent: SmallestSize, place: RealLocation, env: Env, state: PassState) -> Result<PassState, LayoutError>
    decreases grid, 0int,
{
    match this_spec(Node::Grid(grid), grid.location, measured_parent, place, env, state) {
        Err(e) => Err(e),
        Ok(this) => match grid_cell_at_spec(grid, measured_parent, this, env.screen) {
            Err(e) => Err(e),
            Ok(cell) => arrange_children_spec(
                grid.children@,
                None,
                grid_places_spec(grid.children@, cell, this),
                env,
                state.enter_spec(),
                grid.children@.len() as int,
            ),
        },
    }
}

/// The places of the nine children of a border grid that is given the place
/// `place`.
#[verifier::opaque]
pub open spec fn border_places_spec(grid: BorderGrid, measured_parent: SmallestSize, place: RealLocation, env: Env, state: PassState) -> Result<Places, LayoutError> {
    if grid.quadrants is None {
        Err(LayoutError::MissingQuadrants)
    } else {
        match grid.border_size {
            None => Err(LayoutError::MissingBorderSize),
            Some(border_size) => match size_spec(Node::BorderGrid(grid), measured_parent, env.screen) {
                Err(e) => Err(e),
                Ok(size) => match size.real_size_spec() {
                    Err(e) => Err(e),
                    Ok(smallest) => {
                        let this = grid.location.children_location_spec(place, smallest, env.screen, state.max_order);
                        let border = border_size.real_border_spec(place.size, smallest, env.screen);
                        Ok(crate::border_grid::places_spec(this, border))
                    },
                },
            },
        }
    }
}

/// The pass after the nine children of a border grid have been given their
/// places, row by row, from the upper left to the lower right. The center
/// is arranged as it was measured in `center_parent`, if it was; every
/// other child is measured in its place.
pub open spec fn arrange_quadrants_spec(quadrants: crate::node::Quadrants, center_parent: Option<SmallestSize>, places: Places, env: Env, state: PassState) -> Result<PassState, LayoutError>
    decreases quadrants, 0int,
{
    let s0 = Ok::<PassState, LayoutError>(state);
    let s1 = arrange_quadrant_spec(quadrants.up_left, None, places.up_left, env, s0);
    let s2 = arrange_quadrant_spec(quadrants.up, None, places.up, env, s1);
    let s3 = arrange_quadrant_spec(quadrants.up_right, None, places.up_right, env, s2);
    let s4 = arrange_quadrant_spec(quadrants.left, None, places.left, env, s3);
    let s5 = arrange_quadrant_spec(quadrants.center, center_parent, places.center, env, s4);
    let s6 = arrange_quadrant_spec(quadrants.right, None, places.right, env, s5);
    let s7 = arrange_quadrant_spec(quadrants.down_left, None, places.down_left, env, s6);
    let s8 = arrange_quadrant_spec(quadrants.down, None, places.down, env, s7);
    arrange_quadrant_spec(quadrants.down_right, None, places.down_right, env, s8)
}

/// The pass after a border grid: its nine children are placed around and in
/// its content.
pub open spec fn arrange_border_grid_spec(grid: BorderGrid, measured_parent: SmallestSize, place: RealLocation, env: Env, state: PassState) -> Result<PassState, LayoutError>
    decreases grid, 0int,
{
    match border_places_spec(grid, measured_parent, place, env, state) {
        Err(e) => Err(e),
        Ok(places) => match grid.quadrants {
            None => Err(LayoutError::MissingQuadrants),
            Some(quadrants) => arrange_quadrants_spec(
                *quadrants,
                border_center_parent_spec(grid, measured_parent, places, env.screen),
                places,
                env,
                state.enter_spec(),
            ),
        },
    }
}

/// The space in which the center of a border grid was measured, if it was
/// measured with the border grid.
#[verifier::opaque]
pub open spec fn border_center_parent_spec(grid: BorderGrid, measured_parent: SmallestSize, places: Places, screen: ScreenSize) -> Option<SmallestSize> {
    if declared_spec(grid.location, measured_parent, screen).is_smallest_spec() {
        match frame_spec(grid.location, measured_parent, screen) {
            Ok(frame) => match crate::measure::border_spec(grid, frame.inner, screen) {
                Ok(border) => Some(frame.inner.shrink_spec(border)),
                Err(_) => None,
            },
            Err(_) => None,
        }
    } else {
        None
    }
}

/// Why a node cannot be measured in the space `parent`, if it cannot.
#[verifier::opaque]
pub open spec fn unmeasurable_spec(node: Node, parent: SmallestSize, screen: ScreenSize) -> Option<LayoutError> {
    match size_spec(node, parent, screen) {
        Err(e) => Some(e),
        Ok(_) => None,
    }
}

/// The pass after one child has been given its place. A child that was
/// measured with its parent is arranged as it was measured; any other is
/// measured in its place first. An invisible child is passed over.
pub open spec fn arrange_child_spec(child: Node, measured_parent: Option<SmallestSize>, place: RealLocation, env: Env, state: PassState) -> Result<PassState, LayoutError>
    decreases child, 1int,
{
    if !child.is_visible_spec() {
        Ok(state)
    } else {
        match measured_parent {
            Some(parent) => arrange_spec(child, parent, place, env, state),
            None => match unmeasurable_spec(child, place.size.smallest_size_spec(), env.screen) {
                Some(e) => Err(e),
                None => arrange_spec(child, place.size.smallest_size_spec(), place, env, state),
            },
        }
    }
}

/// The pass after one of the nine children of a border grid, unless the
/// pass failed before.
pub open spec fn arrange_quadrant_spec(child: Node, measured_parent: Option<SmallestSize>, place: RealLocation, env: Env, state: Result<PassState, LayoutError>) -> Result<PassState, LayoutError>
    decreases child, 2int,
{
    match state {
        Err(e) => Err(e),
        Ok(before) => arrange_child_spec(child, measured_parent, place, env, before),
    }
}

/// The pass after the first `n` of some children have been given their
/// places, one after another.
pub open spec fn arrange_children_spec(children: Seq<Node>, measured_parent: Option<SmallestSize>, places: Seq<Option<RealLocation>>, env: Env, state: PassState, n: int) -> Result<PassState, LayoutError>
    decreases children, n,
{
    if n <= 0 || n > children.len() || n > places.len() {
        Ok(state)
    } else {
        match arrange_children_spec(children, measured_parent, places, env, state, n - 1) {
            Err(e) => Err(e),
            Ok(before) => match places[n - 1] {
                None => Ok(before),
                Some(place) => arrange_child_spec(children[n - 1], measured_parent, place, env, before),
            },
        }
    }
}

/// The pass after a node has been measured in the place `place` and then
/// arranged in it.
pub open spec fn layout_spec(node: Node, place: RealLocation, env: Env, state: PassState) -> Result<PassState, LayoutError> {
    arrange_child_spec(node, None, place, env, state)
}

/// Places a sprite and has it drawn.
pub fn arrange_sprite(sprite: &Sprite, place: &RealLocation, env: &Env, pass: &mut Pass) -> (r: Result<(), LayoutError>)
    ensures
        match r {
            Ok(()) => arrange_sprite_spec(*sprite, *place, *env, old(pass)@) == Ok::<PassState, LayoutError>(final(pass)@),
            Err(e) => arrange_sprite_spec(*sprite, *place, *env, old(pass)@) == Err::<PassState, LayoutError>(e),
        },
{
    reveal(arrange_sprite_spec);
    if sprite.alpha == 0 {
        pass.enter();
        return Ok(());
    }
    let smallest = match sprite.location.size.smallest_size(&env.screen).real_size() {
        Ok(smallest) => smallest,
        Err(e) => { return Err(e); },
    };
    let max_order = pass.get_max_order();
    let instance = match sprite.instance(place, &smallest, &env.screen, max_order) {
        Ok(instance) => instance,
        Err(e) => { return Err(e); },
    };
    let sheet = match &sprite.spritesheet {
        None => { return Err(LayoutError::MissingSpritesheet); },
        Some(sheet) => sheet,
    };
    let drawn = match env.spritesheets.get(&sheet.handle) {
        None => None,
        Some(state) => {
            if state.has_palette && sprite.palette.is_none() {
                return Err(LayoutError::MissingPalette);
            }
            if !state.has_palette && sprite.palette.is_some() {
                return Err(LayoutError::UnexpectedPalette);
            }
            Some(SpriteInstance { spritesheet: sheet.handle, instance, palette: sprite.palette })
        },
    };
    let node = pass.enter();
    pass.set_max_order(instance.order);
    let index = match drawn {
        Some(sprite_instance) => {
            let index = pass.sprites.len();
            pass.sprites.push(sprite_instance);
            Some(index)
        },
        None => None,
    };
    pass.rendered.push(Rendered { node, kind: LeafKind::Sprite, parent: *place, smallest, max_order, order: instance.order, instance: index });
    Ok(())
}

/// Draws the glyphs of a text whose content is at `this`.
fn draw_glyphs(glyphs: &Vec<Glyph>, this: &RealLocation, font: Handle, state: &BitmapFontState, color: ColorRgb, pass: &mut Pass) -> (r: Result<(), LayoutError>)
    ensures
        match r {
            Ok(()) => {
                let drawn = glyph_instances_spec(glyphs@, *this, font, *state, color, glyphs@.len() as int);
                &&& drawn is Ok
                &&& final(pass)@ == (PassState { glyphs: old(pass)@.glyphs + drawn->Ok_0, ..old(pass)@ })
            },
            Err(e) => glyph_instances_spec(glyphs@, *this, font, *state, color, glyphs@.len() as int)
                == Err::<Seq<GlyphInstance>, LayoutError>(e),
        },
{
    let mut i: usize = 0;
    proof {
        assert(pass@.glyphs =~= old(pass)@.glyphs + Seq::<GlyphInstance>::empty());
    }
    while i < glyphs.len()
        invariant
            0 <= i <= glyphs@.len(),
            glyph_instances_spec(glyphs@, *this, font, *state, color, i as int) is Ok,
            pass@ == (PassState {
                glyphs: old(pass)@.glyphs + glyph_instances_spec(glyphs@, *this, font, *state, color, i as int)->Ok_0,
                ..old(pass)@
            }),
        decreases glyphs@.len() - i,
    {
        let glyph = glyphs[i];
        let ghost before = glyph_instances_spec(glyphs@, *this, font, *state, color, i as int)->Ok_0;
        let character = state.supported.replace(glyph.character);
        // Always display the full width tile
        let tile = match state.tile(character, 2) {
            Some(tile) => tile,
            None => {
                proof {
                    lemma_glyph_instances_error(glyphs@, *this, font, *state, color, i as int + 1, glyphs@.len() as int);
                }
                return Err(LayoutError::FontTooLarge);
            },
        };
        let location = RealLocation {
            position: this.position.plus(glyph.position),
            size: glyph.size,
            order: this.order,
        };
        let (position, size) = match Instance::place(&location) {
            Ok(placed) => placed,
            Err(e) => {
                proof {
                    lemma_glyph_instances_error(glyphs@, *this, font, *state, color, i as int + 1, glyphs@.len() as int);
                }
                return Err(e);
            },
        };
        let drawn = GlyphInstance {
            font,
            instance: Instance {
                position,
                size,
                order: this.order,
                alpha: UNIT,
                uv: RealSize { width: UNIT, height: UNIT },
                tile,
            },
            color,
        };
        pass.glyphs.push(drawn);
        proof {
            assert(pass@.glyphs =~= old(pass)@.glyphs + before.push(drawn));
        }
        i = i + 1;
    }
    Ok(())
}

/// Places a text and has its glyphs drawn.
pub fn arrange_text(text: &BitmapText, measured: &Measured, place: &RealLocation, env: &Env, pass: &mut Pass) -> (r: Result<(), LayoutError>)
    requires
        agrees(*measured, Node::BitmapText(*text), env.screen),
    ensures
        match r {
            Ok(()) => arrange_text_spec(*text, measured.parent, *place, *env, old(pass)@) == Ok::<PassState, LayoutError>(final(pass)@),
            Err(e) => arrange_text_spec(*text, measured.parent, *place, *env, old(pass)@) == Err::<PassState, LayoutError>(e),
        },
{
    reveal(arrange_text_spec);
    let font = match &text.font {
        None => { return Err(LayoutError::MissingFont); },
        Some(font) => font,
    };
    let state = match env.fonts.get(&font.handle) {
        None => {
            pass.enter();
            return Ok(());
        },
        Some(state) => state,
    };
    let smallest = match measured.size.real_size() {
        Ok(smallest) => smallest,
        Err(e) => { return Err(e); },
    };
    let max_order = pass.get_max_order();
    let this = text.location.children_location_explicit(place, &smallest, &env.screen, max_order);
    let laid_out: Vec<Glyph>;
    let glyphs: &Vec<Glyph> = if measured.glyphs.len() > 0 {
        &measured.glyphs
    } else {
        // If it has a fixed size then the glyphs are calculated now.
        let m = match metrics(text, &this.size.smallest_size(), Some(this.size.width), &env.screen) {
            Ok(m) => m,
            Err(e) => { return Err(e); },
        };
        laid_out = m.layout(&text.text).0;
        &laid_out
    };
    assert(text_glyphs_spec(*text, measured.parent, this, env.screen) == Ok::<Seq<Glyph>, LayoutError>(glyphs@));
    if glyphs.len() == 0 {
        pass.enter();
        return Ok(());
    }
    let node = pass.enter();
    match draw_glyphs(glyphs, &this, font.handle, state, text.text_color, pass) {
        Ok(()) => {},
        Err(e) => { return Err(e); },
    }
    pass.rendered.push(Rendered { node, kind: LeafKind::Text, parent: *place, smallest, max_order, order: this.order, instance: None });
    pass.set_max_order(this.order);
    Ok(())
}

/// Places one child that was measured with its parent.
fn arrange_measured_child(
    child: &Node,
    measured: &Option<Measured>,
    Ghost(parent): Ghost<SmallestSize>,
    place: &RealLocation,
    env: &Env,
    pass: &mut Pass,
) -> (r: Result<(), LayoutError>)
    requires
        child.is_visible_spec() ==> measured is Some && measured->Some_0.parent == parent
            && agrees(measured->Some_0, *child, env.screen),
    ensures
        match r {
            Ok(()) => arrange_child_spec(*child, Some(parent), *place, *env, old(pass)@) == Ok::<PassState, LayoutError>(final(pass)@),
            Err(e) => arrange_child_spec(*child, Some(parent), *place, *env, old(pass)@) == Err::<PassState, LayoutError>(e),
        },
    decreases *child, 1int,
{
    if !child.is_visible() {
        return Ok(());
    }
    match measured {
        None => Ok(()),
        Some(m) => arrange(child, m, place, env, pass),
    }
}

/// Places the children that were measured with their parent.
fn arrange_measured_children(
    children: &Vec<Node>,
    measured: &Vec<Option<Measured>>,
    Ghost(parent): Ghost<SmallestSize>,
    places: &Vec<Option<RealLocation>>,
    env: &Env,
    pass: &mut Pass,
) -> (r: Result<(), LayoutError>)
    requires
        children_agree(measured@, children@, parent, env.screen),
        places@.len() == children@.len(),
    ensures
        match r {
            Ok(()) => arrange_children_spec(children@, Some(parent), places@, *env, old(pass)@, children@.len() as int)
                == Ok::<PassState, LayoutError>(final(pass)@),
            Err(e) => arrange_children_spec(children@, Some(parent), places@, *env, old(pass)@, children@.len() as int)
                == Err::<PassState, LayoutError>(e),
        },
    decreases *children, 0int,
{
    let mut i: usize = 0;
    while i < children.len()
        invariant
            0 <= i <= children@.len(),
            measured@.len() == children@.len(),
            children_agree(measured@, children@, parent, env.screen),
            places@.len() == children@.len(),
            arrange_children_spec(children@, Some(parent), places@, *env, old(pass)@, i as int)
                == Ok::<PassState, LayoutError>(pass@),
        decreases children@.len() - i,
    {
        match &places[i] {
            None => {},
            Some(place) => {
                proof {
                    assert(decreases_to!(*children => children[i as int]));
                    let child = children@[i as int];
                    assert(child.is_visible_spec() ==> measured@[i as int] is Some
                        && measured@[i as int]->Some_0.parent == parent
                        && agrees(measured@[i as int]->Some_0, child, env.screen));
                }
                match arrange_measured_child(&children[i], &measured[i], Ghost(parent), place, env, pass) {
                    Ok(()) => {},
                    Err(e) => {
                        proof {
                            lemma_arrange_children_error(children@, Some(parent), places@, *env, old(pass)@, i as int + 1, children@.len() as int);
                        }
                        return Err(e);
                    },
                }
            },
        }
        i = i + 1;
    }
    Ok(())
}

/// Measures each visible child in its place and places it there.
fn layout_children(children: &Vec<Node>, places: &Vec<Option<RealLocation>>, env: &Env, pass: &mut Pass) -> (r: Result<(), LayoutError>)
    requires
        places@.len() == children@.len(),
    ensures
        match r {
            Ok(()) => arrange_children_spec(children@, None, places@, *env, old(pass)@, children@.len() as int)
                == Ok::<PassState, LayoutError>(final(pass)@),
            Err(e) => arrange_children_spec(children@, None, places@, *env, old(pass)@, children@.len() as int)
                == Err::<PassState, LayoutError>(e),
        },
    decreases *children, 0int,
{
    let mut i: usize = 0;
    while i < children.len()
        invariant
            0 <= i <= children@.len(),
            places@.len() == children@.len(),
            arrange_children_spec(children@, None, places@, *env, old(pass)@, i as int)
                == Ok::<PassState, LayoutError>(pass@),
        decreases children@.len() - i,
    {
        match &places[i] {
            None => {},
            Some(place) => {
                proof {
                    assert(decreases_to!(*children => children[i as int]));
                }
                let ghost before = pass@;
                match layout(&children[i], place, env, pass) {
                    Ok(()) => {},
                    Err(e) => {
                        proof {
                            lemma_arrange_children_error(children@, None, places@, *env, old(pass)@, i as int + 1, children@.len() as int);
                        }
                        return Err(e);
                    },
                }
            },
        }
        i = i + 1;
    }
    Ok(())
}

/// An error among the first `i` children is the error of every longer prefix.
pub proof fn lemma_arrange_children_error(children: Seq<Node>, measured_parent: Option<SmallestSize>, places: Seq<Option<RealLocation>>, env: Env, state: PassState, i: int, n: int)
    requires
        0 <= i <= n <= children.len(),
        n <= places.len(),
        arrange_children_spec(children, measured_parent, places, env, state, i) is Err,
    ensures
        arrange_children_spec(children, measured_parent, places, env, state, n)
            == arrange_children_spec(children, measured_parent, places, env, state, i),
    decreases n - i,
{
    if i < n {
        lemma_arrange_children_error(children, measured_parent, places, env, state, i, n - 1);
    }
}

fn arrange_stack(stack: &Stack, measured: &Measured, place: &RealLocation, env: &Env, pass: &mut Pass) -> (r: Result<(), LayoutError>)
    requires
        agrees(*measured, Node::Stack(*stack), env.screen),
    ensures
        match r {
            Ok(()) => arrange_stack_spec(*stack, measured.parent, *place, *env, old(pass)@) == Ok::<PassState, LayoutError>(final(pass)@),
            Err(e) => arrange_stack_spec(*stack, measured.parent, *place, *env, old(pass)@) == Err::<PassState, LayoutError>(e),
        },
    decreases *stack, 0int,
{
    reveal(this_spec);
    reveal(stack_places_spec);
    let smallest = match measured.size.real_size() {
        Ok(smallest) => smallest,
        Err(e) => { return Err(e); },
    };
    let this = stack.location.children_location_explicit(place, &smallest, &env.screen, pass.get_max_order());
    let ghost inner = frame_spec(stack.location, measured.parent, env.screen)->Ok_0.inner;
    let mut places: Vec<Option<RealLocation>> = Vec::new();
    let mut i: usize = 0;
    while i < stack.children.len()
        invariant
            0 <= i <= stack.children@.len(),
            places@.len() == i,
            forall|j: int| 0 <= j < i ==> places@[j] == Some(this),
        decreases stack.children@.len() - i,
    {
        places.push(Some(this));
        i = i + 1;
    }
    proof {
        assert(places@ =~= stack_places_spec(stack.children@, this));
    }
    pass.enter();
    arrange_measured_children(&stack.children, &measured.children, Ghost(inner), &places, env, pass)
}

fn arrange_flex(
    axis: Axis,
    Ghost(node): Ghost<Node>,
    location: &crate::location::Location,
    children: &Vec<Node>,
    measured: &Measured,
    place: &RealLocation,
    env: &Env,
    pass: &mut Pass,
) -> (r: Result<(), LayoutError>)
    requires
        size_spec(node, measured.parent, env.screen) == Ok::<SmallestSize, LayoutError>(measured.size),
        frame_spec(*location, measured.parent, env.screen) is Ok,
        children_agree(
            measured.children@,
            children@,
            axis.child_parent_spec(frame_spec(*location, measured.parent, env.screen)->Ok_0.inner),
            env.screen,
        ),
        axis.supported(sizes(measured.children@)),
    ensures
        ({
            let child_parent = axis.child_parent_spec(frame_spec(*location, measured.parent, env.screen)->Ok_0.inner);
            let expected = match this_spec(node, *location, measured.parent, *place, *env, old(pass)@) {
                Err(e) => Err(e),
                Ok(this) => match flex_places_spec(axis, children@, child_parent, this, env.screen) {
                    Err(e) => Err(e),
                    Ok(places) => arrange_children_spec(
                        children@,
                        Some(child_parent),
                        places,
                        *env,
                        old(pass)@.enter_spec(),
                        children@.len() as int,
                    ),
                },
            };
            match r {
                Ok(()) => expected == Ok::<PassState, LayoutError>(final(pass)@),
                Err(e) => expected == Err::<PassState, LayoutError>(e),
            }
        }),
    decreases *children, 1int,
{
    reveal(this_spec);
    reveal(flex_places_spec);
    let smallest = match measured.size.real_size() {
        Ok(smallest) => smallest,
        Err(e) => { return Err(e); },
    };
    let this = location.children_location_explicit(place, &smallest, &env.screen, pass.get_max_order());
    let ghost child_parent = axis.child_parent_spec(frame_spec(*location, measured.parent, env.screen)->Ok_0.inner);
    proof {
        lemma_agreed_sizes(measured.children@, children@, child_parent, env.screen, children@.len() as int);
        assert(sizes(measured.children@).subrange(0, children@.len() as int) =~= sizes(measured.children@));
    }
    let totals = axis.children_size(&measured.children);
    let places = axis.placements(&this, &measured.children, &totals);
    proof {
        assert(places@ =~= Seq::new(children@.len(), |i: int| axis.place_spec(this, sizes(measured.children@), totals, i)));
    }
    pass.enter();
    arrange_measured_children(children, &measured.children, Ghost(child_parent), &places, env, pass)
}

fn arrange_packed(
    Ghost(node): Ghost<Node>,
    location: &crate::location::Location,
    children: &Vec<Node>,
    measured: &Measured,
    place: &RealLocation,
    env: &Env,
    pass: &mut Pass,
) -> (r: Result<(), LayoutError>)
    requires
        size_spec(node, measured.parent, env.screen) == Ok::<SmallestSize, LayoutError>(measured.size),
        children_agree(measured.children@, children@, shrunk_spec(), env.screen),
        resolved(sizes(measured.children@)),
    ensures
        ({
            let expected = match this_spec(node, *location, measured.parent, *place, *env, old(pass)@) {
                Err(e) => Err(e),
                Ok(this) => match wrap_places_spec(children@, measured.bound, this, env.screen) {
                    Err(e) => Err(e),
                    Ok(places) => arrange_children_spec(
                        children@,
                        Some(shrunk_spec()),
                        places,
                        *env,
                        old(pass)@.enter_spec(),
                        children@.len() as int,
                    ),
                },
            };
            match r {
                Ok(()) => expected == Ok::<PassState, LayoutError>(final(pass)@),
                Err(e) => expected == Err::<PassState, LayoutError>(e),
            }
        }),
    decreases *children, 1int,
{
    reveal(this_spec);
    reveal(wrap_places_spec);
    let smallest = match measured.size.real_size() {
        Ok(smallest) => smallest,
        Err(e) => { return Err(e); },
    };
    let this = location.children_location_explicit(place, &smallest, &env.screen, pass.get_max_order());
    proof {
        lemma_agreed_sizes(measured.children@, children@, shrunk_spec(), env.screen, children@.len() as int);
        assert(sizes(measured.children@).subrange(0, children@.len() as int) =~= sizes(measured.children@));
    }
    let reals = real_sizes(&measured.children);
    let places = crate::wrap::placements(&this, &reals, measured.bound);
    proof {
        assert(places@ =~= Seq::new(children@.len(), |i: int| crate::wrap::place_spec(this, reals@, measured.bound, i)));
    }
    pass.enter();
    arrange_measured_children(children, &measured.children, Ghost(shrunk_spec()), &places, env, pass)
}

fn arrange_wrap(wrap: &Wrap, measured: &Measured, place: &RealLocation, env: &Env, pass: &mut Pass) -> (r: Result<(), LayoutError>)
    requires
        agrees(*measured, Node::Wrap(*wrap), env.screen),
    ensures
        match r {
            Ok(()) => arrange_wrap_spec(*wrap, measured.parent, *place, *env, old(pass)@) == Ok::<PassState, LayoutError>(final(pass)@),
            Err(e) => arrange_wrap_spec(*wrap, measured.parent, *place, *env, old(pass)@) == Err::<PassState, LayoutError>(e),
        },
    decreases *wrap, 0int,
{
    proof {
        lemma_agreed_sizes(measured.children@, wrap.children@, shrunk_spec(), env.screen, wrap.children@.len() as int);
        assert(sizes(measured.children@).subrange(0, wrap.children@.len() as int) =~= sizes(measured.children@));
        lemma_resolved(sizes(measured.children@), wrap.children@.len() as int);
    }
    arrange_packed(Ghost(Node::Wrap(*wrap)), &wrap.location, &wrap.children, measured, place, env, pass)
}

fn arrange_row(row: &Row, measured: &Measured, place: &RealLocation, env: &Env, pass: &mut Pass) -> (r: Result<(), LayoutError>)
    requires
        agrees(*measured, Node::Row(*row), env.screen),
    ensures
        match r {
            Ok(()) => arrange_row_spec(*row, measured.parent, *place, *env, old(pass)@) == Ok::<PassState, LayoutError>(final(pass)@),
            Err(e) => arrange_row_spec(*row, measured.parent, *place, *env, old(pass)@) == Err::<PassState, LayoutError>(e),
        },
    decreases *row, 0int,
{
    proof {
        let inner = frame_spec(row.location, measured.parent, env.screen)->Ok_0.inner;
        let child_parent = Axis::Horizontal.child_parent_spec(inner);
        lemma_agreed_sizes(measured.children@, row.children@, child_parent, env.screen, row.children@.len() as int);
        assert(sizes(measured.children@).subrange(0, row.children@.len() as int) =~= sizes(measured.children@));
        Axis::Horizontal.lemma_supported(sizes(measured.children@), row.children@.len() as int);
    }
    arrange_flex(Axis::Horizontal, Ghost(Node::Row(*row)), &row.location, &row.children, measured, place, env, pass)
}

fn arrange_column(column: &Column, measured: &Measured, place: &RealLocation, env: &Env, pass: &mut Pass) -> (r: Result<(), LayoutError>)
    requires
        agrees(*measured, Node::Column(*column), env.screen),
    ensures
        match r {
            Ok(()) => arrange_column_spec(*column, measured.parent, *place, *env, old(pass)@) == Ok::<PassState, LayoutError>(final(pass)@),
            Err(e) => arrange_column_spec(*column, measured.parent, *place, *env, old(pass)@) == Err::<PassState, LayoutError>(e),
        },
    decreases *column, 0int,
{
    proof {
        let inner = frame_spec(column.location, measured.parent, env.screen)->Ok_0.inner;
        let child_parent = Axis::Vertical.child_parent_spec(inner);
        lemma_agreed_sizes(measured.children@, column.children@, child_parent, env.screen, column.children@.len() as int);
        assert(sizes(measured.children@).subrange(0, column.children@.len() as int) =~= sizes(measured.children@));
        Axis::Vertical.lemma_supported(sizes(measured.children@), column.children@.len() as int);
    }
    arrange_flex(Axis::Vertical, Ghost(Node::Column(*column)), &column.location, &column.children, measured, place, env, pass)
}

fn arrange_grid(grid: &Grid, measured: &Measured, place: &RealLocation, env: &Env, pass: &mut Pass) -> (r: Result<(), LayoutError>)
    requires
        agrees(*measured, Node::Grid(*grid), env.screen),
    ensures
        match r {
            Ok(()) => arrange_grid_spec(*grid, measured.parent, *place, *env, old(pass)@) == Ok::<PassState, LayoutError>(final(pass)@),
            Err(e) => arrange_grid_spec(*grid, measured.parent, *place, *env, old(pass)@) == Err::<PassState, LayoutError>(e),
        },
    decreases *grid, 0int,
{
    reveal(this_spec);
    reveal(grid_cell_at_spec);
    reveal(grid_places_spec);
    let smallest = match measured.size.real_size() {
        Ok(smallest) => smallest,
        Err(e) => { return Err(e); },
    };
    let this = grid.location.children_location_explicit(place, &smallest, &env.screen, pass.get_max_order());
    let cell = match measured.cell {
        Some(cell) => cell,
        None => match &grid.grid_size {
            None => { return Err(LayoutError::MissingGridSize); },
            Some(grid_size) => match grid_size.real_size(&this.size.smallest_size(), &env.screen) {
                Ok(cell) => cell,
                Err(e) => { return Err(e); },
            },
        },
    };
    let visible = visible_count(&grid.children);
    let columns = crate::grid::partition(this.size.width, cell.width, visible).columns;
    let mut places: Vec<Option<RealLocation>> = Vec::new();
    let mut rank: usize = 0;
    let mut i: usize = 0;
    while i < grid.children.len()
        invariant
            0 <= i <= grid.children@.len(),
            places@.len() == i,
            rank == visible_count_spec(grid.children@, i as int),
            rank <= i,
            forall|j: int| 0 <= j < i ==> places@[j] == if (#[trigger] grid.children@[j]).is_visible_spec() {
                Some(crate::grid::place_spec(this, cell, columns as int, visible_count_spec(grid.children@, j)))
            } else {
                None
            },
        decreases grid.children@.len() - i,
    {
        if grid.children[i].is_visible() {
            places.push(Some(crate::grid::place(&this, &cell, columns, rank)));
            rank = rank + 1;
        } else {
            places.push(None);
        }
        i = i + 1;
    }
    proof {
        assert(places@ =~= grid_places_spec(grid.children@, cell, this));
    }
    pass.enter();
    layout_children(&grid.children, &places, env, pass)
}

/// Places one of the nine children of a border grid that is measured in its
/// place.
fn layout_quadrant(child: &Node, place: &RealLocation, env: &Env, before: Result<(), LayoutError>, Ghost(state): Ghost<Result<PassState, LayoutError>>, pass: &mut Pass) -> (r: Result<(), LayoutError>)
    requires
        match before {
            Ok(()) => state == Ok::<PassState, LayoutError>(old(pass)@),
            Err(e) => state == Err::<PassState, LayoutError>(e),
        },
    ensures
        match r {
            Ok(()) => arrange_quadrant_spec(*child, None, *place, *env, state) == Ok::<PassState, LayoutError>(final(pass)@),
            Err(e) => arrange_quadrant_spec(*child, None, *place, *env, state) == Err::<PassState, LayoutError>(e),
        },
    decreases *child, 2int,
{
    match before {
        Err(e) => Err(e),
        Ok(()) => layout(child, place, env, pass),
    }
}

/// What a measurement that agrees with a border grid holds of the grid's
/// center.
proof fn lemma_border_center(grid: BorderGrid, measured: Measured, places: Places, screen: ScreenSize)
    requires
        agrees(measured, Node::BorderGrid(grid), screen),
        grid.quadrants is Some,
    ensures
        match border_center_parent_spec(grid, measured.parent, places, screen) {
            Some(parent) => if grid.quadrants->Some_0.center.is_visible_spec() {
                &&& measured.children@.len() == 1
                &&& measured.children@[0] is Some
                &&& measured.children@[0]->Some_0.parent == parent
                &&& agrees(measured.children@[0]->Some_0, grid.quadrants->Some_0.center, screen)
            } else {
                measured.children@.len() == 0
            },
            None => measured.children@.len() == 0,
        },
{
    reveal(border_center_parent_spec);
}

/// Places the center of a border grid: as it was measured, if it was, and
/// else measured in its place.
fn arrange_center(
    center: &Node,
    measured: &Vec<Option<Measured>>,
    Ghost(center_parent): Ghost<Option<SmallestSize>>,
    place: &RealLocation,
    env: &Env,
    before: Result<(), LayoutError>,
    Ghost(state): Ghost<Result<PassState, LayoutError>>,
    pass: &mut Pass,
) -> (r: Result<(), LayoutError>)
    requires
        match before {
            Ok(()) => state == Ok::<PassState, LayoutError>(old(pass)@),
            Err(e) => state == Err::<PassState, LayoutError>(e),
        },
        match center_parent {
            Some(parent) => if center.is_visible_spec() {
                &&& measured@.len() == 1
                &&& measured@[0] is Some
                &&& measured@[0]->Some_0.parent == parent
                &&& agrees(measured@[0]->Some_0, *center, env.screen)
            } else {
                measured@.len() == 0
            },
            None => measured@.len() == 0,
        },
    ensures
        match r {
            Ok(()) => arrange_quadrant_spec(*center, center_parent, *place, *env, state) == Ok::<PassState, LayoutError>(final(pass)@),
            Err(e) => arrange_quadrant_spec(*center, center_parent, *place, *env, state) == Err::<PassState, LayoutError>(e),
        },
    decreases *center, 2int,
{
    match before {
        Err(e) => Err(e),
        Ok(()) => if measured.len() == 1 {
            match &measured[0] {
                Some(m) => arrange(center, m, place, env, pass),
                None => Ok(()),
            }
        } else {
            layout(center, place, env, pass)
        },
    }
}

/// Finds the places of the nine children of a border grid.
fn border_places(grid: &BorderGrid, measured: &Measured, place: &RealLocation, env: &Env, pass: &Pass) -> (r: Result<Places, LayoutError>)
    requires
        size_spec(Node::BorderGrid(*grid), measured.parent, env.screen) == Ok::<SmallestSize, LayoutError>(measured.size),
    ensures
        r == border_places_spec(*grid, measured.parent, *place, *env, pass@),
{
    reveal(border_places_spec);
    if grid.quadrants.is_none() {
        return Err(LayoutError::MissingQuadrants);
    }
    let border_size = match &grid.border_size {
        None => { return Err(LayoutError::MissingBorderSize); },
        Some(border_size) => border_size,
    };
    let smallest = match measured.size.real_size() {
        Ok(smallest) => smallest,
        Err(e) => { return Err(e); },
    };
    let this = grid.location.children_location_explicit(place, &smallest, &env.screen, pass.get_max_order());
    let border = border_size.real_border(&place.size, &smallest, &env.screen);
    Ok(crate::border_grid::places(&this, &border))
}

/// Places the nine children of a border grid.
fn arrange_quadrants(
    quadrants: &crate::node::Quadrants,
    measured: &Vec<Option<Measured>>,
    Ghost(center_parent): Ghost<Option<SmallestSize>>,
    places: &Places,
    env: &Env,
    pass: &mut Pass,
) -> (r: Result<(), LayoutError>)
    requires
        match center_parent {
            Some(parent) => if quadrants.center.is_visible_spec() {
                &&& measured@.len() == 1
                &&& measured@[0] is Some
                &&& measured@[0]->Some_0.parent == parent
                &&& agrees(measured@[0]->Some_0, quadrants.center, env.screen)
            } else {
                measured@.len() == 0
            },
            None => measured@.len() == 0,
        },
    ensures
        match r {
            Ok(()) => arrange_quadrants_spec(*quadrants, center_parent, *places, *env, old(pass)@) == Ok::<PassState, LayoutError>(final(pass)@),
            Err(e) => arrange_quadrants_spec(*quadrants, center_parent, *places, *env, old(pass)@) == Err::<PassState, LayoutError>(e),
        },
    decreases *quadrants, 0int,
{
    let ghost s0 = Ok::<PassState, LayoutError>(pass@);
    let r1 = layout_quadrant(&quadrants.up_left, &places.up_left, env, Ok(()), Ghost(s0), pass);
    let ghost s1 = arrange_quadrant_spec(quadrants.up_left, None, places.up_left, *env, s0);
    let r2 = layout_quadrant(&quadrants.up, &places.up, env, r1, Ghost(s1), pass);
    let ghost s2 = arrange_quadrant_spec(quadrants.up, None, places.up, *env, s1);
    let r3 = layout_quadrant(&quadrants.up_right, &places.up_right, env, r2, Ghost(s2), pass);
    let ghost s3 = arrange_quadrant_spec(quadrants.up_right, None, places.up_right, *env, s2);
    let r4 = layout_quadrant(&quadrants.left, &places.left, env, r3, Ghost(s3), pass);
    let ghost s4 = arrange_quadrant_spec(quadrants.left, None, places.left, *env, s3);
    let r5 = arrange_center(&quadrants.center, measured, Ghost(center_parent), &places.center, env, r4, Ghost(s4), pass);
    let ghost s5 = arrange_quadrant_spec(quadrants.center, center_parent, places.center, *env, s4);
    let r6 = layout_quadrant(&quadrants.right, &places.right, env, r5, Ghost(s5), pass);
    let ghost s6 = arrange_quadrant_spec(quadrants.right, None, places.right, *env, s5);
    let r7 = layout_quadrant(&quadrants.down_left, &places.down_left, env, r6, Ghost(s6), pass);
    let ghost s7 = arrange_quadrant_spec(quadrants.down_left, None, places.down_left, *env, s6);
    let r8 = layout_quadrant(&quadrants.down, &places.down, env, r7, Ghost(s7), pass);
    let ghost s8 = arrange_quadrant_spec(quadrants.down, None, places.down, *env, s7);
    layout_quadrant(&quadrants.down_right, &places.down_right, env, r8, Ghost(s8), pass)
}

fn arrange_border_grid(grid: &BorderGrid, measured: &Measured, place: &RealLocation, env: &Env, pass: &mut Pass) -> (r: Result<(), LayoutError>)
    requires
        agrees(*measured, Node::BorderGrid(*grid), env.screen),
    ensures
        match r {
            Ok(()) => arrange_border_grid_spec(*grid, measured.parent, *place, *env, old(pass)@) == Ok::<PassState, LayoutError>(final(pass)@),
            Err(e) => arrange_border_grid_spec(*grid, measured.parent, *place, *env, old(pass)@) == Err::<PassState, LayoutError>(e),
        },
    decreases *grid, 0int,
{
    proof {
        lemma_agrees_size(*measured, Node::BorderGrid(*grid), env.screen);
    }
    let places = match border_places(grid, measured, place, env, pass) {
        Ok(places) => places,
        Err(e) => { return Err(e); },
    };
    let quadrants = match &grid.quadrants {
        None => { return Err(LayoutError::MissingQuadrants); },
        Some(quadrants) => quadrants,
    };
    let ghost center_parent = border_center_parent_spec(*grid, measured.parent, places, env.screen);
    proof {
        assert(decreases_to!(grid.quadrants => grid.quadrants->Some_0));
        lemma_border_center(*grid, *measured, places, env.screen);
    }
    pass.enter();
    arrange_quadrants(quadrants, &measured.children, Ghost(center_parent), &places, env, pass)
}

/// Does the arrangement of a node that was measured: computes its place,
/// places what is below it, and has the leaves drawn.
///
/// `measured` must be what [`measure`] returned for the node.
pub fn arrange(node: &Node, measured: &Measured, place: &RealLocation, env: &Env, pass: &mut Pass) -> (r: Result<(), LayoutError>)
    requires
        agrees(*measured, *node, env.screen),
    ensures
        match r {
            Ok(()) => arrange_spec(*node, measured.parent, *place, *env, old(pass)@) == Ok::<PassState, LayoutError>(final(pass)@),
            Err(e) => arrange_spec(*node, measured.parent, *place, *env, old(pass)@) == Err::<PassState, LayoutError>(e),
        },
    decreases *node, 0int,
{
    match node {
        Node::Sprite(sprite) => arrange_sprite(sprite, place, env, pass),
        Node::BitmapText(text) => arrange_text(text, measured, place, env, pass),
        Node::Stack(stack) => arrange_stack(stack, measured, place, env, pass),
        Node::Row(row) => arrange_row(row, measured, place, env, pass),
        Node::Column(column) => arrange_column(column, measured, place, env, pass),
        Node::Wrap(wrap) => arrange_wrap(wrap, measured, place, env, pass),
        Node::Grid(grid) => arrange_grid(grid, measured, place, env, pass),
        Node::BorderGrid(grid) => arrange_border_grid(grid, measured, place, env, pass),
        Node::Optional(child) => match child {
            Some(inner) => {
                pass.enter();
                arrange(inner, measured, place, env, pass)
            },
            None => {
                pass.enter();
                Ok(())
            },
        },
    }
}

/// Measures a node in the place that it is given and arranges it there. An
/// invisible node is passed over.
pub fn layout(node: &Node, place: &RealLocation, env: &Env, pass: &mut Pass) -> (r: Result<(), LayoutError>)
    ensures
        match r {
            Ok(()) => layout_spec(*node, *place, *env, old(pass)@) == Ok::<PassState, LayoutError>(final(pass)@),
            Err(e) => layout_spec(*node, *place, *env, old(pass)@) == Err::<PassState, LayoutError>(e),
        },
    decreases *node, 1int,
{
    reveal(unmeasurable_spec);
    if !node.is_visible() {
        return Ok(());
    }
    let measured = match measure(node, &place.size.smallest_size(), &env.screen) {
        Ok(measured) => measured,
        Err(e) => { return Err(e); },
    };
    proof {
        lemma_agrees_size(measured, *node, env.screen);
    }
    arrange(node, &measured, place, env, pass)
}

} // verus!
