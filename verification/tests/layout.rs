use rusted_battalions::arrange::{layout, Env, LeafKind, Pass};
use rusted_battalions::border_grid::BorderSize;
use rusted_battalions::error::LayoutError;
use rusted_battalions::flex::Axis;
use rusted_battalions::grid::{partition, GridSize, Partition};
use rusted_battalions::handles::{Handle, Handles};
use rusted_battalions::location::{Length, Location, Offset, Order, Origin, Padding, ScreenSize, Size};
use rusted_battalions::measure::measure;
use rusted_battalions::measured::{check_resolved, real_sizes, Measured};
use rusted_battalions::node::{BorderGrid, Column, Grid, Node, Quadrants, Row, Stack, Wrap};
use rusted_battalions::number::UNIT;
use rusted_battalions::sprite::{Sprite, Spritesheet, SpritesheetState};
use rusted_battalions::units::{RealLocation, RealPosition, RealSize, SmallestLength, SmallestSize};

fn env(width: u32, height: u32) -> Env {
    let mut spritesheets = Handles::new();
    spritesheets.insert(&Handle::new(1), SpritesheetState { has_palette: false });
    Env { screen: ScreenSize::new(width, height), spritesheets, fonts: Handles::new() }
}

fn sprite(width: Length, height: Length) -> Node {
    let mut s = Sprite::new();
    s.spritesheet = Some(Spritesheet::new(Handle::new(1)));
    s.location.size = Size { width, height };
    Node::Sprite(s)
}

fn full() -> SmallestSize {
    SmallestSize { width: SmallestLength::Screen(UNIT), height: SmallestLength::Screen(UNIT) }
}

fn run(root: &Node, e: &Env) -> Result<Pass, LayoutError> {
    let mut pass = Pass::new();
    layout(root, &RealLocation::full(), e, &mut pass)?;
    Ok(pass)
}

#[test]
fn column_shares_the_space_that_a_fixed_child_leaves() {
    let a = sprite(Length::ParentWidth(UNIT), Length::ParentHeight(UNIT));
    let b = sprite(Length::ParentWidth(UNIT), Length::Px(100));
    let mut column = Column::new();
    column.children.push(a);
    column.children.push(b);
    let root = Node::Column(column);
    let e = env(500, 500);
    let pass = run(&root, &e).unwrap();
    assert_eq!(pass.rendered.len(), 2);
    let first = pass.rendered[0];
    let second = pass.rendered[1];
    assert_eq!(first.parent.size, RealSize { width: UNIT, height: 800_000 });
    assert_eq!(second.parent.size, RealSize { width: UNIT, height: 200_000 });
    assert_eq!(first.parent.position, RealPosition { x: 0, y: 0 });
    assert_eq!(second.parent.position, RealPosition { x: 0, y: 800_000 });
    assert!(second.order > first.order);
    assert_eq!(first.order, 2 * UNIT);
    assert_eq!(second.order, 3 * UNIT);
    assert_eq!(first.kind, LeafKind::Sprite);
    assert_eq!(pass.max_order, 3 * UNIT);
    // The heights of the children add up to the height of the column.
    assert_eq!(first.parent.size.height + second.parent.size.height, UNIT);
}

#[test]
fn column_draws_its_children_in_clip_space() {
    let a = sprite(Length::ParentWidth(UNIT), Length::ParentHeight(UNIT));
    let b = sprite(Length::ParentWidth(UNIT), Length::Px(100));
    let mut column = Column::new();
    column.children.push(a);
    column.children.push(b);
    let pass = run(&Node::Column(column), &env(500, 500)).unwrap();
    assert_eq!(pass.sprites.len(), 2);
    let first = pass.sprites[0].instance;
    assert_eq!(first.position, RealPosition { x: -UNIT, y: -600_000 });
    assert_eq!(first.size, RealSize { width: 2 * UNIT, height: 1_600_000 });
    assert_eq!(first.uv, RealSize { width: UNIT, height: UNIT });
    assert!(first.is_opaque());
    let second = pass.sprites[1].instance;
    assert_eq!(second.position, RealPosition { x: -UNIT, y: -UNIT });
    assert_eq!(second.size, RealSize { width: 2 * UNIT, height: 400_000 });
    assert_eq!(pass.rendered[0].instance, Some(0));
    assert_eq!(pass.rendered[1].instance, Some(1));
}

#[test]
fn stretching_children_share_by_their_ratios() {
    let a = sprite(Length::ParentWidth(UNIT), Length::ParentHeight(2 * UNIT));
    let b = sprite(Length::ParentWidth(UNIT), Length::ParentHeight(UNIT));
    let mut column = Column::new();
    column.children.push(a);
    column.children.push(b);
    let pass = run(&Node::Column(column), &env(300, 300)).unwrap();
    assert_eq!(pass.rendered[0].parent.size.height, 666_666);
    assert_eq!(pass.rendered[1].parent.size.height, 333_333);
    assert_eq!(pass.rendered[1].parent.position.y, 666_666);
    // Each stretching child may fall short by less than a millionth.
    let sum = pass.rendered[0].parent.size.height + pass.rendered[1].parent.size.height;
    assert!(UNIT - 2 <= sum && sum <= UNIT);
}

#[test]
fn row_places_children_from_left_to_right() {
    let a = sprite(Length::Px(50), Length::ParentHeight(UNIT));
    let b = sprite(Length::ParentWidth(UNIT), Length::ParentHeight(UNIT));
    let c = sprite(Length::ParentWidth(3 * UNIT), Length::ParentHeight(UNIT));
    let mut row = Row::new();
    row.children.push(a);
    row.children.push(b);
    row.children.push(c);
    let pass = run(&Node::Row(row), &env(200, 100)).unwrap();
    let places: Vec<(i64, i64)> = pass.rendered.iter().map(|r| (r.parent.position.x, r.parent.size.width)).collect();
    assert_eq!(places, vec![(0, 250_000), (250_000, 187_500), (437_500, 562_500)]);
    assert!(pass.rendered.iter().all(|r| r.parent.size.height == UNIT));
}

#[test]
fn invisible_children_take_no_space() {
    let a = sprite(Length::Px(50), Length::ParentHeight(UNIT));
    let mut hidden = Sprite::new();
    hidden.visible = false;
    hidden.location.size = Size { width: Length::Px(100), height: Length::ParentHeight(UNIT) };
    let c = sprite(Length::Px(20), Length::ParentHeight(UNIT));
    let mut row = Row::new();
    row.children.push(a);
    row.children.push(Node::Sprite(hidden));
    row.children.push(c);
    let pass = run(&Node::Row(row), &env(200, 100)).unwrap();
    assert_eq!(pass.rendered.len(), 2);
    assert_eq!(pass.rendered[1].parent.position.x, 250_000);
    assert_eq!(pass.rendered[1].parent.size.width, 100_000);
}

#[test]
fn without_stretching_children_nothing_stretches() {
    let a = sprite(Length::Px(50), Length::ParentHeight(UNIT));
    let b = sprite(Length::Px(30), Length::ParentHeight(UNIT));
    let mut row = Row::new();
    row.children.push(a);
    row.children.push(b);
    let pass = run(&Node::Row(row), &env(200, 100)).unwrap();
    assert_eq!(pass.rendered[0].parent.size.width, 250_000);
    assert_eq!(pass.rendered[1].parent.size.width, 150_000);
}

#[test]
fn fixed_children_that_do_not_fit_leave_nothing_to_stretch() {
    let a = sprite(Length::Px(300), Length::ParentHeight(UNIT));
    let b = sprite(Length::ParentWidth(UNIT), Length::ParentHeight(UNIT));
    let mut row = Row::new();
    row.children.push(a);
    row.children.push(b);
    let pass = run(&Node::Row(row), &env(200, 100)).unwrap();
    assert_eq!(pass.rendered[0].parent.size.width, 1_500_000);
    assert_eq!(pass.rendered[1].parent.size.width, 0);
}

#[test]
fn row_rejects_a_child_that_stretches_across() {
    let a = sprite(Length::ParentHeight(UNIT), Length::ParentHeight(UNIT));
    let mut row = Row::new();
    row.children.push(a);
    assert_eq!(run(&Node::Row(row), &env(200, 100)).err(), Some(LayoutError::UnsupportedAxis));
    let b = sprite(Length::SmallestWidth(UNIT), Length::ParentHeight(UNIT));
    let mut row = Row::new();
    row.children.push(b);
    assert_eq!(run(&Node::Row(row), &env(200, 100)).err(), Some(LayoutError::Unresolved));
}

#[test]
fn row_shrinks_to_its_content() {
    let a = sprite(Length::Px(50), Length::Px(10));
    let b = sprite(Length::Px(30), Length::Px(40));
    let mut row = Row::new();
    row.location.size = Size { width: Length::SmallestWidth(UNIT), height: Length::SmallestHeight(UNIT) };
    row.children.push(a);
    row.children.push(b);
    let measured = measure(&Node::Row(row), &full(), &ScreenSize::new(200, 100)).unwrap();
    assert_eq!(measured.size, SmallestSize { width: SmallestLength::Screen(400_000), height: SmallestLength::Screen(400_000) });
    assert_eq!(measured.children.len(), 2);
    assert_eq!(measured.parent, full());
}

#[test]
fn padding_is_added_to_the_content() {
    let a = sprite(Length::Px(50), Length::Px(10));
    let mut stack = Stack::new();
    stack.location.size = Size { width: Length::SmallestWidth(UNIT), height: Length::SmallestHeight(UNIT) };
    stack.location.padding = Padding::all(Length::Px(10));
    stack.children.push(a);
    let root = Node::Stack(stack);
    let screen = ScreenSize::new(200, 100);
    let measured = measure(&root, &full(), &screen).unwrap();
    assert_eq!(measured.size, SmallestSize { width: SmallestLength::Screen(350_000), height: SmallestLength::Screen(300_000) });
    let pass = run(&root, &env(200, 100)).unwrap();
    assert_eq!(pass.rendered[0].parent.position, RealPosition { x: 50_000, y: 100_000 });
    assert_eq!(pass.rendered[0].parent.size, RealSize { width: 250_000, height: 100_000 });
}

#[test]
fn padding_larger_than_the_node_leaves_nothing() {
    let a = sprite(Length::ParentWidth(UNIT), Length::ParentHeight(UNIT));
    let mut stack = Stack::new();
    stack.location.size = Size { width: Length::Px(10), height: Length::Px(10) };
    stack.location.padding = Padding::all(Length::Px(50));
    stack.children.push(a);
    let pass = run(&Node::Stack(stack), &env(100, 100)).unwrap();
    assert_eq!(pass.rendered[0].parent.size, RealSize { width: 0, height: 0 });
}

#[test]
fn padding_relative_to_an_unknown_parent_is_an_error() {
    let mut inner = Stack::new();
    inner.location.padding = Padding { up: Length::Zero, down: Length::Zero, left: Length::ParentWidth(UNIT / 10), right: Length::Zero };
    let mut row = Row::new();
    row.children.push(Node::Stack(inner));
    assert_eq!(run(&Node::Row(row), &env(100, 100)).err(), Some(LayoutError::ParentWidthUnknown));
}

#[test]
fn stack_takes_the_largest_child() {
    let a = sprite(Length::Px(50), Length::Px(10));
    let b = sprite(Length::Px(30), Length::Px(40));
    let mut stack = Stack::new();
    stack.location.size = Size { width: Length::SmallestWidth(UNIT), height: Length::SmallestHeight(UNIT / 2) };
    stack.children.push(a);
    stack.children.push(b);
    let root = Node::Stack(stack);
    let measured = measure(&root, &full(), &ScreenSize::new(100, 100)).unwrap();
    assert_eq!(measured.size, SmallestSize { width: SmallestLength::Screen(500_000), height: SmallestLength::Screen(200_000) });
    let pass = run(&root, &env(100, 100)).unwrap();
    assert_eq!(pass.rendered[0].parent, pass.rendered[1].parent);
    // The ratio of a length that is relative to the content is applied to the
    // measured size, which it has gone into already.
    assert_eq!(pass.rendered[0].parent.size, RealSize { width: 500_000, height: 100_000 });
}

#[test]
fn wrap_starts_a_row_where_the_next_child_does_not_fit() {
    let mut wrap = Wrap::new();
    for (w, h) in [(40, 10), (40, 30), (40, 20), (100, 5), (10, 5)] {
        wrap.children.push(sprite(Length::Px(w), Length::Px(h)));
    }
    let root = Node::Wrap(wrap);
    let pass = run(&root, &env(100, 100)).unwrap();
    let places: Vec<(i64, i64, i64, i64)> = pass
        .rendered
        .iter()
        .map(|r| (r.parent.position.x, r.parent.position.y, r.parent.size.width, r.parent.size.height))
        .collect();
    assert_eq!(
        places,
        vec![
            (0, 0, 400_000, 300_000),
            (400_000, 0, 400_000, 300_000),
            (0, 300_000, 400_000, 200_000),
            (0, 500_000, UNIT, 50_000),
            (0, 550_000, 100_000, 50_000),
        ]
    );
}

#[test]
fn wrap_reports_the_widest_row_and_the_sum_of_the_heights() {
    let mut wrap = Wrap::new();
    wrap.location.size = Size { width: Length::ParentWidth(UNIT), height: Length::SmallestHeight(UNIT) };
    for (w, h) in [(40, 10), (40, 30), (40, 20)] {
        wrap.children.push(sprite(Length::Px(w), Length::Px(h)));
    }
    let measured = measure(&Node::Wrap(wrap), &full(), &ScreenSize::new(100, 100)).unwrap();
    assert_eq!(measured.size.height, SmallestLength::Screen(500_000));
    assert_eq!(measured.bound, UNIT);
}

#[test]
fn wrap_needs_a_known_width() {
    let mut wrap = Wrap::new();
    wrap.location.size = Size { width: Length::SmallestWidth(UNIT), height: Length::SmallestHeight(UNIT) };
    wrap.children.push(sprite(Length::Px(40), Length::Px(10)));
    let r = measure(&Node::Wrap(wrap), &full(), &ScreenSize::new(100, 100));
    assert_eq!(r.err(), Some(LayoutError::SmallestWidthUnknown));
}

#[test]
fn empty_wrap_has_no_size() {
    let mut wrap = Wrap::new();
    wrap.location.size = Size { width: Length::ParentWidth(UNIT), height: Length::SmallestHeight(UNIT) };
    let measured = measure(&Node::Wrap(wrap), &full(), &ScreenSize::new(100, 100)).unwrap();
    assert_eq!(measured.size.height, SmallestLength::Screen(0));
}

#[test]
fn grid_partitions_its_children() {
    assert_eq!(partition(UNIT, 300_000, 7).columns, 3);
    assert_eq!(partition(UNIT, 300_000, 7).rows, 3);
    assert_eq!(partition(UNIT, 300_000, 2).columns, 2);
    assert_eq!(partition(UNIT, 300_000, 2).rows, 1);
    assert_eq!(partition(100_000, 300_000, 4).columns, 1);
    assert_eq!(partition(100_000, 300_000, 4).rows, 4);
    assert_eq!(partition(UNIT, 300_000, 0).columns, 0);
    assert_eq!(partition(UNIT, 300_000, 0).rows, 0);
    assert_eq!(partition(UNIT, 0, 5).columns, 5);
    assert_eq!(partition(UNIT, 0, 5).rows, 1);
    assert_eq!(partition(UNIT, 250_000, 8).columns, 4);
    assert_eq!(partition(UNIT, 250_000, 8).rows, 2);
    assert_eq!(partition(UNIT, 250_000, 9).rows, 3);
}

#[test]
fn grid_places_a_new_row_after_every_full_row() {
    let mut grid = Grid::new();
    grid.set_grid_size(GridSize { width: Length::Px(30), height: Length::Px(20) });
    for _ in 0..7 {
        grid.children.push(sprite(Length::ParentWidth(UNIT), Length::ParentHeight(UNIT)));
    }
    let mut hidden = Sprite::new();
    hidden.visible = false;
    grid.children.insert(2, Node::Sprite(hidden));
    let pass = run(&Node::Grid(grid), &env(100, 100)).unwrap();
    let places: Vec<(i64, i64)> = pass.rendered.iter().map(|r| (r.parent.position.x, r.parent.position.y)).collect();
    assert_eq!(
        places,
        vec![
            (0, 0),
            (300_000, 0),
            (600_000, 0),
            (0, 200_000),
            (300_000, 200_000),
            (600_000, 200_000),
            (0, 400_000)
        ]
    );
    assert!(pass.rendered.iter().all(|r| r.parent.size == RealSize { width: 300_000, height: 200_000 }));
}

#[test]
fn grid_that_shrinks_lays_its_children_out_in_one_row() {
    let mut grid = Grid::new();
    grid.location.size = Size { width: Length::SmallestWidth(UNIT), height: Length::SmallestHeight(UNIT) };
    grid.set_grid_size(GridSize { width: Length::Px(30), height: Length::Px(20) });
    for _ in 0..5 {
        grid.children.push(sprite(Length::ParentWidth(UNIT), Length::ParentHeight(UNIT)));
    }
    let measured = measure(&Node::Grid(grid), &full(), &ScreenSize::new(100, 100)).unwrap();
    assert_eq!(measured.size, SmallestSize { width: SmallestLength::Screen(1_500_000), height: SmallestLength::Screen(200_000) });
    assert_eq!(measured.cell, Some(RealSize { width: 300_000, height: 200_000 }));
}

#[test]
fn grid_without_cell_size_is_an_error() {
    let mut grid = Grid::new();
    grid.children.push(sprite(Length::ParentWidth(UNIT), Length::ParentHeight(UNIT)));
    assert_eq!(run(&Node::Grid(grid), &env(100, 100)).err(), Some(LayoutError::MissingGridSize));
}

fn quadrants() -> Quadrants {
    let s = || sprite(Length::ParentWidth(UNIT), Length::ParentHeight(UNIT));
    Quadrants {
        up_left: s(),
        up: s(),
        up_right: s(),
        left: s(),
        center: s(),
        right: s(),
        down_left: s(),
        down: s(),
        down_right: s(),
    }
}

#[test]
fn border_grid_places_nine_children() {
    let mut grid = BorderGrid::new();
    grid.set_quadrants(quadrants());
    grid.set_border_size(BorderSize { up: Length::Px(10), down: Length::Px(20), left: Length::Px(5), right: Length::Px(15) });
    let pass = run(&Node::BorderGrid(grid), &env(100, 100)).unwrap();
    let places: Vec<(i64, i64, i64, i64)> = pass
        .rendered
        .iter()
        .map(|r| (r.parent.position.x, r.parent.position.y, r.parent.size.width, r.parent.size.height))
        .collect();
    assert_eq!(
        places,
        vec![
            (0, 0, 50_000, 100_000),
            (50_000, 0, 800_000, 100_000),
            (850_000, 0, 150_000, 100_000),
            (0, 100_000, 50_000, 700_000),
            (50_000, 100_000, 800_000, 700_000),
            (850_000, 100_000, 150_000, 700_000),
            (0, 800_000, 50_000, 200_000),
            (50_000, 800_000, 800_000, 200_000),
            (850_000, 800_000, 150_000, 200_000),
        ]
    );
}

#[test]
fn border_grid_measures_its_center() {
    let mut q = quadrants();
    q.center = sprite(Length::Px(40), Length::Px(30));
    let mut grid = BorderGrid::new();
    grid.location.size = Size { width: Length::SmallestWidth(UNIT), height: Length::SmallestHeight(UNIT) };
    grid.set_quadrants(q);
    grid.set_border_size(BorderSize::all(Length::Px(10)));
    let root = Node::BorderGrid(grid);
    let measured = measure(&root, &full(), &ScreenSize::new(100, 100)).unwrap();
    assert_eq!(measured.size, SmallestSize { width: SmallestLength::Screen(600_000), height: SmallestLength::Screen(500_000) });
    assert_eq!(measured.children.len(), 1);
    let pass = run(&root, &env(100, 100)).unwrap();
    assert_eq!(pass.rendered.len(), 9);
    assert_eq!(pass.rendered[4].parent.size, RealSize { width: 400_000, height: 300_000 });
}

#[test]
fn border_larger_than_the_grid_leaves_no_center() {
    let mut grid = BorderGrid::new();
    grid.location.size = Size { width: Length::Px(10), height: Length::Px(10) };
    grid.set_quadrants(quadrants());
    grid.set_border_size(BorderSize::all(Length::Px(30)));
    let pass = run(&Node::BorderGrid(grid), &env(100, 100)).unwrap();
    assert_eq!(pass.rendered[4].parent.size, RealSize { width: 0, height: 0 });
    assert_eq!(pass.rendered[8].parent.position, RealPosition { x: 0, y: 0 });
}

#[test]
fn border_grid_needs_its_parts() {
    let grid = BorderGrid::new();
    assert_eq!(run(&Node::BorderGrid(grid), &env(100, 100)).err(), Some(LayoutError::MissingQuadrants));
    let mut grid = BorderGrid::new();
    grid.set_quadrants(quadrants());
    assert_eq!(run(&Node::BorderGrid(grid), &env(100, 100)).err(), Some(LayoutError::MissingBorderSize));
}

#[test]
fn order_policies() {
    assert_eq!(Order::Global(5 * UNIT).resolve(2 * UNIT, 9 * UNIT), 5 * UNIT);
    assert_eq!(Order::Parent(UNIT / 2).resolve(2 * UNIT, 9 * UNIT), 2_500_000);
    assert_eq!(Order::Above(UNIT).resolve(2 * UNIT, 9 * UNIT), 10 * UNIT);
    assert_eq!(Order::default(), Order::Above(UNIT));
}

#[test]
fn later_leaves_are_drawn_on_top() {
    let mut inner = Row::new();
    inner.children.push(sprite(Length::Px(10), Length::Px(10)));
    inner.children.push(sprite(Length::Px(10), Length::Px(10)));
    let mut stack = Stack::new();
    stack.children.push(sprite(Length::Px(10), Length::Px(10)));
    stack.children.push(Node::Row(inner));
    stack.children.push(Node::Optional(Some(Box::new(sprite(Length::Px(10), Length::Px(10))))));
    stack.children.push(Node::Optional(None));
    let pass = run(&Node::Stack(stack), &env(100, 100)).unwrap();
    assert_eq!(pass.rendered.len(), 4);
    for pair in pass.rendered.windows(2) {
        assert!(pair[1].order > pair[0].order);
        assert!(pair[1].node > pair[0].node);
    }
}

#[test]
fn order_below_one_is_an_error() {
    let mut s = Sprite::new();
    s.spritesheet = Some(Spritesheet::new(Handle::new(1)));
    s.location.order = Order::Global(UNIT / 2);
    assert_eq!(run(&Node::Sprite(s), &env(100, 100)).err(), Some(LayoutError::OrderTooLow));
}

#[test]
fn transparent_sprites_are_not_drawn() {
    let mut s = Sprite::new();
    s.spritesheet = Some(Spritesheet::new(Handle::new(1)));
    s.alpha = 0;
    let pass = run(&Node::Sprite(s), &env(100, 100)).unwrap();
    assert_eq!(pass.rendered.len(), 0);
    assert_eq!(pass.visited, 1);
    assert_eq!(pass.max_order, UNIT);
}

#[test]
fn sprite_needs_a_spritesheet_and_the_right_palette() {
    let s = Sprite::new();
    assert_eq!(run(&Node::Sprite(s), &env(100, 100)).err(), Some(LayoutError::MissingSpritesheet));
    let mut s = Sprite::new();
    s.spritesheet = Some(Spritesheet::new(Handle::new(1)));
    s.palette = Some(3);
    assert_eq!(run(&Node::Sprite(s), &env(100, 100)).err(), Some(LayoutError::UnexpectedPalette));
    let mut e = env(100, 100);
    e.spritesheets.insert(&Handle::new(2), SpritesheetState { has_palette: true });
    let mut s = Sprite::new();
    s.spritesheet = Some(Spritesheet::new(Handle::new(2)));
    assert_eq!(run(&Node::Sprite(s), &e).err(), Some(LayoutError::MissingPalette));
}

#[test]
fn sprite_of_a_spritesheet_that_is_not_loaded_is_remembered_but_not_drawn() {
    let mut s = Sprite::new();
    s.spritesheet = Some(Spritesheet::new(Handle::new(77)));
    let pass = run(&Node::Sprite(s), &env(100, 100)).unwrap();
    assert_eq!(pass.rendered.len(), 1);
    assert_eq!(pass.rendered[0].instance, None);
    assert_eq!(pass.sprites.len(), 0);
    assert_eq!(pass.max_order, 2 * UNIT);
}

#[test]
fn origin_and_offset_move_a_node() {
    let mut s = Sprite::new();
    s.spritesheet = Some(Spritesheet::new(Handle::new(1)));
    s.location = Location {
        offset: Offset { x: Length::Px(10), y: Length::ScreenHeight(UNIT / 10) },
        size: Size { width: Length::ParentWidth(UNIT / 2), height: Length::ParentHeight(UNIT / 4) },
        padding: Padding::default(),
        origin: Origin { x: UNIT, y: UNIT / 2 },
        order: Order::Parent(UNIT),
    };
    let location = s.location.children_location_explicit(&RealLocation::full(), &RealSize::zero(), &ScreenSize::new(100, 200), 7 * UNIT);
    assert_eq!(location.position, RealPosition { x: 600_000, y: 475_000 });
    assert_eq!(location.size, RealSize { width: 500_000, height: 250_000 });
    assert_eq!(location.order, 2 * UNIT);
}

#[test]
fn screen_lengths_follow_the_shape_of_the_screen() {
    let screen = ScreenSize::new(200, 100);
    assert_eq!(screen.width.ratio, RealSize { width: UNIT, height: 500_000 });
    assert_eq!(screen.height.ratio, RealSize { width: 2 * UNIT, height: UNIT });
    assert_eq!(Length::ScreenHeight(UNIT).smallest_length(&screen.width), SmallestLength::Screen(500_000));
    assert_eq!(Length::ScreenWidth(UNIT / 2).smallest_length(&screen.height), SmallestLength::Screen(UNIT));
    assert_eq!(Length::Px(50).smallest_length(&screen.width), SmallestLength::Screen(250_000));
    assert_eq!(Length::Zero.smallest_length(&screen.width), SmallestLength::Screen(0));
    assert_eq!(Length::ParentWidth(3).smallest_length(&screen.width), SmallestLength::ParentWidth(3));
    assert_eq!(Length::default(), Length::Zero);
}

#[test]
fn symbolic_lengths_resolve_when_their_reference_is_known() {
    let known = full();
    let unknown = SmallestSize { width: SmallestLength::SmallestWidth(UNIT), height: SmallestLength::ParentHeight(UNIT) };
    let half = SmallestLength::ParentWidth(UNIT / 2);
    assert_eq!(half.parent_to_screen(&known), SmallestLength::Screen(500_000));
    assert_eq!(half.parent_to_screen(&unknown), half);
    assert_eq!(half.parent_to_smallest(&unknown), SmallestLength::SmallestWidth(500_000));
    assert_eq!(SmallestLength::ParentHeight(UNIT).parent_to_smallest(&unknown), SmallestLength::ParentHeight(UNIT));
    let content = RealSize { width: 300_000, height: 200_000 };
    assert_eq!(SmallestLength::SmallestHeight(2 * UNIT).set_smallest(&content), SmallestLength::Screen(400_000));
    assert_eq!(SmallestLength::SmallestWidth(UNIT).to_screen(&known, &unknown), SmallestLength::SmallestWidth(UNIT));
    assert_eq!(SmallestLength::SmallestHeight(UNIT).to_screen(&known, &unknown), SmallestLength::Screen(0));
    assert_eq!(SmallestLength::ParentWidth(UNIT).real_length(), Ok(0));
    assert_eq!(SmallestLength::SmallestWidth(UNIT).real_length(), Err(LayoutError::Unresolved));
    assert_eq!(SmallestLength::ParentHeight(UNIT).screen(), Err(LayoutError::ParentHeightUnknown));
    assert_eq!(SmallestLength::SmallestHeight(UNIT).screen(), Err(LayoutError::SmallestHeightUnknown));
    assert_eq!(SmallestLength::Screen(7).unwrap(), 7);
    assert!(unknown.is_smallest());
    assert!(!known.is_smallest());
}

#[test]
fn flex_totals_of_measured_children() {
    let row = Axis::Horizontal;
    let share = row.share(&SmallestSize { width: SmallestLength::ParentWidth(7), height: SmallestLength::Screen(9) }).unwrap();
    assert_eq!((share.fixed, share.ratio, share.cross), (0, 7, 9));
    let share = Axis::Vertical.share(&SmallestSize { width: SmallestLength::ParentWidth(7), height: SmallestLength::Screen(9) }).unwrap();
    assert_eq!((share.fixed, share.ratio, share.cross), (9, 0, 0));
}

fn measured(width: SmallestLength, height: SmallestLength) -> Option<Measured> {
    Some(Measured::leaf(full(), SmallestSize { width, height }))
}

#[test]
fn column_adds_up_what_its_children_need() {
    let kids = vec![
        measured(SmallestLength::Screen(300_000), SmallestLength::Screen(100_000)),
        None,
        measured(SmallestLength::ParentWidth(UNIT), SmallestLength::ParentHeight(2 * UNIT)),
        measured(SmallestLength::Screen(500_000), SmallestLength::Screen(50_000)),
        measured(SmallestLength::Screen(100_000), SmallestLength::ParentHeight(UNIT)),
    ];
    assert_eq!(Axis::Vertical.check(&kids), Ok(()));
    let totals = Axis::Vertical.children_size(&kids);
    assert_eq!((totals.min_main, totals.ratio_sum, totals.cross), (150_000, 3 * UNIT, 500_000));
    assert_eq!(Axis::Vertical.content(&totals), RealSize { width: 500_000, height: 150_000 });
    let this = RealLocation { position: RealPosition { x: 10, y: 20 }, size: RealSize { width: 700_000, height: 450_000 }, order: 5 * UNIT };
    let places = Axis::Vertical.placements(&this, &kids, &totals);
    let rows: Vec<Option<(i64, i64)>> = places.iter().map(|p| p.map(|p| (p.position.y, p.size.height))).collect();
    assert_eq!(
        rows,
        vec![Some((20, 100_000)), None, Some((100_020, 200_000)), Some((300_020, 50_000)), Some((350_020, 100_000))]
    );
    assert!(places.iter().flatten().all(|p| p.size.width == 700_000 && p.position.x == 10 && p.order == 5 * UNIT));
}

#[test]
fn column_cannot_hold_every_child() {
    let fine = measured(SmallestLength::Screen(1), SmallestLength::Screen(1));
    let check = |width, height| Axis::Vertical.check(&vec![fine_clone(&fine), measured(width, height)]);
    assert_eq!(check(SmallestLength::Screen(1), SmallestLength::ParentWidth(UNIT)), Err(LayoutError::UnsupportedAxis));
    assert_eq!(check(SmallestLength::Screen(1), SmallestLength::SmallestWidth(UNIT)), Err(LayoutError::Unresolved));
    assert_eq!(check(SmallestLength::Screen(1), SmallestLength::SmallestHeight(UNIT)), Err(LayoutError::Unresolved));
    assert_eq!(check(SmallestLength::ParentHeight(UNIT), SmallestLength::Screen(1)), Err(LayoutError::UnsupportedAxis));
    assert_eq!(check(SmallestLength::SmallestWidth(UNIT), SmallestLength::Screen(1)), Err(LayoutError::Unresolved));
    assert_eq!(check(SmallestLength::SmallestHeight(UNIT), SmallestLength::Screen(1)), Err(LayoutError::Unresolved));
    assert_eq!(check(SmallestLength::ParentWidth(UNIT), SmallestLength::ParentHeight(UNIT)), Ok(()));
    let row = |width, height| Axis::Horizontal.check(&vec![measured(width, height)]);
    assert_eq!(row(SmallestLength::ParentHeight(UNIT), SmallestLength::Screen(1)), Err(LayoutError::UnsupportedAxis));
    assert_eq!(row(SmallestLength::Screen(1), SmallestLength::ParentWidth(UNIT)), Err(LayoutError::UnsupportedAxis));
    assert_eq!(row(SmallestLength::ParentWidth(UNIT), SmallestLength::ParentHeight(UNIT)), Ok(()));
}

fn fine_clone(m: &Option<Measured>) -> Option<Measured> {
    m.as_ref().map(|m| Measured::leaf(m.parent, m.size))
}

#[test]
fn sizes_of_children_on_the_screen() {
    let kids = vec![
        measured(SmallestLength::Screen(300_000), SmallestLength::ParentHeight(UNIT)),
        None,
        measured(SmallestLength::ParentWidth(UNIT), SmallestLength::Screen(7)),
    ];
    assert_eq!(check_resolved(&kids), Ok(()));
    assert_eq!(
        real_sizes(&kids),
        vec![Some(RealSize { width: 300_000, height: 0 }), None, Some(RealSize { width: 0, height: 7 })]
    );
    let waiting = vec![measured(SmallestLength::Screen(1), SmallestLength::SmallestHeight(UNIT))];
    assert_eq!(check_resolved(&waiting), Err(LayoutError::Unresolved));
}

#[test]
fn grid_is_measured_in_a_known_or_shrinking_width() {
    let cell = RealSize { width: 300_000, height: 200_000 };
    let known = full();
    assert_eq!(rusted_battalions::grid::check(&known), Ok(()));
    assert_eq!(rusted_battalions::grid::measure(&known, &cell, 7), Partition { columns: 3, rows: 3 });
    let shrinking = SmallestSize { width: SmallestLength::SmallestWidth(UNIT), height: SmallestLength::Screen(UNIT) };
    assert_eq!(rusted_battalions::grid::check(&shrinking), Ok(()));
    assert_eq!(rusted_battalions::grid::measure(&shrinking, &cell, 7), Partition { columns: 7, rows: 1 });
    assert_eq!(rusted_battalions::grid::measure(&shrinking, &cell, 0), Partition { columns: 0, rows: 0 });
    let unknown = |width| rusted_battalions::grid::check(&SmallestSize { width, height: SmallestLength::Screen(UNIT) });
    assert_eq!(unknown(SmallestLength::ParentWidth(UNIT)), Err(LayoutError::ParentWidthUnknown));
    assert_eq!(unknown(SmallestLength::ParentHeight(UNIT)), Err(LayoutError::ParentHeightUnknown));
    assert_eq!(unknown(SmallestLength::SmallestHeight(UNIT)), Err(LayoutError::SmallestHeightUnknown));
}

#[test]
fn new_nodes_fill_their_parent() {
    let default = Location::default();
    assert_eq!(default.size, Size { width: Length::ParentWidth(UNIT), height: Length::ParentHeight(UNIT) });
    assert_eq!(default.order, Order::Above(UNIT));
    assert_eq!(Stack::new().location, default);
    assert_eq!(Row::new().location, default);
    assert_eq!(Column::new().location, default);
    assert_eq!(Wrap::new().location, default);
    assert_eq!(Grid::new().location, default);
    assert_eq!(BorderGrid::new().location, default);
    assert_eq!(Sprite::new().location, default);
    assert!(Sprite::new().visible && Grid::new().visible && BorderGrid::new().visible);
}

#[test]
fn only_leaves_raise_the_highest_order() {
    let mut inner = Column::new();
    inner.location.order = Order::Above(7 * UNIT);
    inner.children.push(sprite(Length::Px(10), Length::Px(10)));
    let mut stack = Stack::new();
    stack.location.order = Order::Above(5 * UNIT);
    stack.children.push(Node::Column(inner));
    stack.children.push(sprite(Length::Px(10), Length::Px(10)));
    let pass = run(&Node::Stack(stack), &env(100, 100)).unwrap();
    let orders: Vec<i64> = pass.rendered.iter().map(|r| r.order).collect();
    assert_eq!(orders, vec![2 * UNIT, 3 * UNIT]);
    assert_eq!(pass.max_order, 3 * UNIT);
    let empty = run(&Node::Stack(Stack::new()), &env(100, 100)).unwrap();
    assert_eq!((empty.rendered.len(), empty.max_order), (0, UNIT));
}

#[test]
fn orders_stay_at_the_largest_number() {
    let mut first = Sprite::new();
    first.spritesheet = Some(Spritesheet::new(Handle::new(1)));
    first.location.order = Order::Above(i64::MAX - UNIT - 1);
    let mut stack = Stack::new();
    stack.children.push(Node::Sprite(first));
    stack.children.push(sprite(Length::Px(10), Length::Px(10)));
    stack.children.push(sprite(Length::Px(10), Length::Px(10)));
    let pass = run(&Node::Stack(stack), &env(100, 100)).unwrap();
    let orders: Vec<i64> = pass.rendered.iter().map(|r| r.order).collect();
    assert_eq!(orders, vec![i64::MAX - 1, i64::MAX, i64::MAX]);
    assert_eq!(pass.max_order, i64::MAX);
}

#[test]
fn a_child_wider_than_the_wrap_sits_alone() {
    let mut wrap = Wrap::new();
    for (w, h) in [(30, 10), (150, 20), (10, 5), (120, 5), (130, 5)] {
        wrap.children.push(sprite(Length::Px(w), Length::Px(h)));
    }
    let pass = run(&Node::Wrap(wrap), &env(100, 100)).unwrap();
    let places: Vec<(i64, i64)> = pass.rendered.iter().map(|r| (r.parent.position.x, r.parent.position.y)).collect();
    assert_eq!(places, vec![(0, 0), (0, 100_000), (0, 300_000), (0, 350_000), (0, 400_000)]);
}
