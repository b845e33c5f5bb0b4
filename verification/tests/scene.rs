use rusted_battalions::bitmap_text::{BitmapFont, BitmapFontSupported};
use rusted_battalions::builder::{update_children, update_optional, ChildrenChange, Property};
use rusted_battalions::error::LayoutError;
use rusted_battalions::handles::{Handle, HandleSource, Handles};
use rusted_battalions::location::{Length, Offset, Order, Origin, Padding, Size};
use rusted_battalions::node::{find, Column, Node, Row, Stack};
use rusted_battalions::number::UNIT;
use rusted_battalions::scene::{
    AssetError, BitmapFontSettings, BuilderChanged, Frame, Scene, SceneChanged, SpritesheetSettings, TextureFormat,
    Window, WindowSize, WindowSource,
};
use rusted_battalions::sprite::{Repeat, RepeatTile, Sprite, Spritesheet, Texture};
use rusted_battalions::sprite_border::SpriteBorder;
use rusted_battalions::border_grid::BorderSize;
use rusted_battalions::tile::{QuadrantGrid, Tile};
use rusted_battalions::units::{RealPosition, RealSize};

const WINDOW: WindowSize = WindowSize { width: 100, height: 100 };

fn sprite(width: i32, height: i32) -> Sprite {
    let mut s = Sprite::new();
    s.spritesheet = Some(Spritesheet::new(Handle::new(1)));
    s.location.size = Size { width: Length::Px(width), height: Length::Px(height) };
    s
}

fn scene() -> Scene {
    let mut row = Row::new();
    row.children.push(Node::Sprite(sprite(10, 10)));
    row.children.push(Node::Sprite(sprite(20, 10)));
    let mut scene = Scene::new(Node::Row(row));
    let texture = Texture::new(Handle::new(100));
    texture.load(&mut scene, TextureFormat::Rgba);
    let sheet = Spritesheet::new(Handle::new(1));
    sheet.load(&mut scene, SpritesheetSettings { texture, palette: None }).unwrap();
    scene
}

fn second(scene: &mut Scene) -> &mut Sprite {
    match &mut scene.root {
        Node::Row(row) => match &mut row.children[1] {
            Node::Sprite(s) => s,
            _ => unreachable!(),
        },
        _ => unreachable!(),
    }
}

#[test]
fn flags_of_a_scene() {
    let mut changed = SceneChanged::new();
    assert_eq!(changed, SceneChanged { layout: true, render: true });
    assert!(changed.replace_layout_changed());
    assert!(changed.replace_render_changed());
    assert_eq!(changed, SceneChanged { layout: false, render: false });
    assert!(!changed.is_render_changed());
    changed.trigger_render_change();
    assert_eq!(changed, SceneChanged { layout: false, render: true });
    changed.trigger_layout_change();
    assert_eq!(changed, SceneChanged { layout: true, render: true });
    let mut changed = SceneChanged { layout: false, render: false };
    BuilderChanged::Unchanged.trigger(&mut changed);
    assert_eq!(changed, SceneChanged { layout: false, render: false });
    BuilderChanged::Render.trigger(&mut changed);
    assert_eq!(changed, SceneChanged { layout: false, render: true });
    BuilderChanged::Layout.trigger(&mut changed);
    assert_eq!(changed, SceneChanged { layout: true, render: true });
    assert_eq!(BuilderChanged::Layout.when_visible(false), BuilderChanged::Unchanged);
    assert_eq!(BuilderChanged::Render.when_visible(true), BuilderChanged::Render);
}

#[test]
fn first_frame_is_a_layout() {
    let mut scene = scene();
    assert!(scene.should_render());
    assert_eq!(scene.prerender(WINDOW), Ok(Frame::Layout));
    assert_eq!(scene.changed, SceneChanged { layout: false, render: false });
    assert!(!scene.should_render());
    assert_eq!(scene.pass.rendered.len(), 2);
    assert_eq!(scene.pass.sprites.len(), 2);
    assert_eq!(scene.pass.rendered[1].parent.position, RealPosition { x: 100_000, y: 0 });
    assert_eq!(scene.prerender(WINDOW), Ok(Frame::Idle));
    assert_eq!(scene.pass.rendered.len(), 2);
}

#[test]
fn layout_again_gives_the_same_places() {
    let mut scene = scene();
    scene.prerender(WINDOW).unwrap();
    let rendered = scene.pass.rendered.clone();
    let sprites = scene.pass.sprites.clone();
    scene.changed.trigger_layout_change();
    assert_eq!(scene.prerender(WINDOW), Ok(Frame::Layout));
    assert_eq!(scene.pass.rendered, rendered);
    assert_eq!(scene.pass.sprites, sprites);
    assert_eq!(scene.pass.max_order, 3 * UNIT);
}

#[test]
fn a_new_tile_is_drawn_without_a_layout() {
    let mut scene = scene();
    scene.prerender(WINDOW).unwrap();
    let before = scene.pass.sprites.clone();
    let tile = Tile { start_x: 16, start_y: 0, end_x: 32, end_y: 16 };
    let change = second(&mut scene).set_tile(tile);
    assert_eq!(change, BuilderChanged::Render);
    change.trigger(&mut scene.changed);
    assert_eq!(scene.prerender(WINDOW), Ok(Frame::Render));
    assert_eq!(scene.changed, SceneChanged { layout: false, render: false });
    assert_eq!(scene.pass.sprites[0], before[0]);
    assert_eq!(scene.pass.sprites[1].instance.tile, tile);
    assert_eq!(scene.pass.sprites[1].instance.position, before[1].instance.position);
    assert_eq!(scene.pass.sprites[1].instance.order, before[1].instance.order);
    assert_eq!(scene.pass.rendered.len(), 2);
}

#[test]
fn a_new_offset_moves_the_sprite_without_a_layout() {
    let mut scene = scene();
    scene.prerender(WINDOW).unwrap();
    let before = scene.pass.sprites[1].instance;
    let change = scene_set(&mut scene, Property::Offset(Offset { x: Length::Px(5), y: Length::Zero }));
    assert_eq!(change, BuilderChanged::Render);
    change.trigger(&mut scene.changed);
    assert_eq!(scene.prerender(WINDOW), Ok(Frame::Render));
    let after = scene.pass.sprites[1].instance;
    assert_eq!(after.position.x, before.position.x + 100_000);
    assert_eq!(after.position.y, before.position.y);
    assert_eq!(after.size, before.size);
    assert_eq!(after.order, before.order);
}

fn scene_set(scene: &mut Scene, property: Property) -> BuilderChanged {
    match &mut scene.root {
        Node::Row(row) => row.children[1].set(property),
        _ => unreachable!(),
    }
}

#[test]
fn a_sprite_that_was_hidden_since_the_layout_cannot_be_drawn_again() {
    let mut scene = scene();
    scene.prerender(WINDOW).unwrap();
    second(&mut scene).alpha = 0;
    scene.changed.trigger_render_change();
    assert_eq!(scene.prerender(WINDOW), Err(LayoutError::Mismatch));
}

#[test]
fn alpha_changes() {
    let mut s = sprite(1, 1);
    assert_eq!(s.set_alpha(UNIT), BuilderChanged::Unchanged);
    assert_eq!(s.set_alpha(UNIT / 2), BuilderChanged::Layout);
    assert_eq!(s.set_alpha(UNIT / 4), BuilderChanged::Render);
    assert_eq!(s.set_alpha(UNIT / 4), BuilderChanged::Unchanged);
    assert_eq!(s.set_alpha(0), BuilderChanged::Layout);
    assert_eq!(s.set_alpha(UNIT / 4), BuilderChanged::Layout);
    assert_eq!(s.alpha, UNIT / 4);
    s.visible = false;
    assert_eq!(s.set_alpha(UNIT), BuilderChanged::Unchanged);
    assert_eq!(s.alpha, UNIT);
}

#[test]
fn properties_of_sprites_and_containers() {
    let mut s = Node::Sprite(sprite(1, 1));
    assert_eq!(s.set(Property::Padding(Padding::all(Length::Px(1)))), BuilderChanged::Render);
    assert_eq!(s.set(Property::Origin(Origin { x: UNIT, y: 0 })), BuilderChanged::Render);
    assert_eq!(s.set(Property::Size(Size::default())), BuilderChanged::Layout);
    assert_eq!(s.set(Property::Order(Order::Global(UNIT))), BuilderChanged::Layout);
    assert_eq!(s.set(Property::Visible(false)), BuilderChanged::Unchanged);
    assert!(!s.is_visible());
    assert_eq!(s.set(Property::Offset(Offset::default())), BuilderChanged::Unchanged);
    assert_eq!(s.set(Property::Visible(true)), BuilderChanged::Layout);
    match &s {
        Node::Sprite(sprite) => {
            assert_eq!(sprite.location.padding, Padding::all(Length::Px(1)));
            assert_eq!(sprite.location.origin, Origin { x: UNIT, y: 0 });
            assert_eq!(sprite.location.order, Order::Global(UNIT));
            assert_eq!(sprite.location.size, Size::default());
        }
        _ => unreachable!(),
    }
    let mut c = Node::Column(Column::new());
    assert_eq!(c.set(Property::Offset(Offset { x: Length::Px(3), y: Length::Zero })), BuilderChanged::Layout);
    assert_eq!(c.set(Property::Padding(Padding::default())), BuilderChanged::Layout);
    let mut o = Node::Optional(None);
    assert_eq!(o.set(Property::Visible(true)), BuilderChanged::Unchanged);
    assert!(!o.is_visible());
    let mut s = sprite(1, 1);
    assert_eq!(s.set_palette(4), BuilderChanged::Render);
    assert_eq!(s.set_repeat_tile(RepeatTile { width: Repeat::Count(2 * UNIT), height: Repeat::Stretch }), BuilderChanged::Render);
    assert_eq!(s.set_spritesheet(Spritesheet::new(Handle::new(5))), BuilderChanged::Layout);
    assert_eq!(s.palette, Some(4));
}

#[test]
fn repeated_tiles() {
    let parent = RealSize { width: UNIT, height: UNIT };
    let smallest = RealSize { width: 0, height: 0 };
    let screen = rusted_battalions::location::ScreenSize::new(100, 100);
    let repeat = RepeatTile { width: Repeat::Length(Length::Px(10)), height: Repeat::Count(3 * UNIT) };
    let uv = repeat.to_uv(&RealSize { width: 500_000, height: 500_000 }, &parent, &smallest, &screen);
    assert_eq!(uv, RealSize { width: 5 * UNIT, height: 3 * UNIT });
    assert_eq!(RepeatTile::default().to_uv(&parent, &parent, &smallest, &screen), RealSize { width: UNIT, height: UNIT });
    assert_eq!(Repeat::Length(Length::Zero).to_uv(&parent, &smallest, &screen.width, UNIT), 0);
    assert_eq!(Repeat::default(), Repeat::Stretch);
}

#[test]
fn children_change() {
    let leaf = |w: i32| Node::Sprite(sprite(w, 1));
    let widths = |children: &Vec<Node>| -> Vec<Length> {
        children
            .iter()
            .map(|c| match c {
                Node::Sprite(s) => s.location.size.width,
                _ => unreachable!(),
            })
            .collect()
    };
    let px = |list: &[i32]| -> Vec<Length> { list.iter().map(|w| Length::Px(*w)).collect() };
    let mut children = vec![leaf(1), leaf(2), leaf(3)];
    assert_eq!(update_children(&mut children, ChildrenChange::Push { value: leaf(4) }), BuilderChanged::Layout);
    assert_eq!(widths(&children), px(&[1, 2, 3, 4]));
    update_children(&mut children, ChildrenChange::InsertAt { index: 1, value: leaf(9) });
    assert_eq!(widths(&children), px(&[1, 9, 2, 3, 4]));
    update_children(&mut children, ChildrenChange::UpdateAt { index: 0, value: leaf(7) });
    assert_eq!(widths(&children), px(&[7, 9, 2, 3, 4]));
    update_children(&mut children, ChildrenChange::RemoveAt { index: 2 });
    assert_eq!(widths(&children), px(&[7, 9, 3, 4]));
    update_children(&mut children, ChildrenChange::Move { old_index: 0, new_index: 3 });
    assert_eq!(widths(&children), px(&[9, 3, 4, 7]));
    update_children(&mut children, ChildrenChange::Move { old_index: 2, new_index: 0 });
    assert_eq!(widths(&children), px(&[4, 9, 3, 7]));
    update_children(&mut children, ChildrenChange::Pop);
    assert_eq!(widths(&children), px(&[4, 9, 3]));
    update_children(&mut children, ChildrenChange::Replace { values: vec![leaf(5)] });
    assert_eq!(widths(&children), px(&[5]));
    update_children(&mut children, ChildrenChange::Clear);
    assert_eq!(children.len(), 0);
    assert!(!ChildrenChange::Pop.is_valid(0));
    assert!(ChildrenChange::Pop.is_valid(1));
    assert!(ChildrenChange::InsertAt { index: 2, value: leaf(1) }.is_valid(2));
    assert!(!ChildrenChange::InsertAt { index: 3, value: leaf(1) }.is_valid(2));
    assert!(!ChildrenChange::UpdateAt { index: 2, value: leaf(1) }.is_valid(2));
    assert!(!ChildrenChange::RemoveAt { index: 2 }.is_valid(2));
    assert!(!ChildrenChange::Move { old_index: 0, new_index: 2 }.is_valid(2));
    assert!(ChildrenChange::Move { old_index: 1, new_index: 0 }.is_valid(2));
    assert!(ChildrenChange::Clear.is_valid(0));
}

#[test]
fn optional_children() {
    let mut slot: Option<Box<Node>> = None;
    assert_eq!(update_optional(&mut slot, None), BuilderChanged::Unchanged);
    assert_eq!(update_optional(&mut slot, Some(Node::Sprite(sprite(1, 1)))), BuilderChanged::Layout);
    assert!(slot.is_some());
    assert_eq!(update_optional(&mut slot, Some(Node::Sprite(sprite(2, 1)))), BuilderChanged::Layout);
    assert_eq!(update_optional(&mut slot, None), BuilderChanged::Layout);
    assert!(slot.is_none());
}

#[test]
fn nodes_in_the_order_of_the_pass() {
    let mut inner = Row::new();
    inner.children.push(Node::Sprite(sprite(1, 1)));
    let mut hidden = sprite(2, 1);
    hidden.visible = false;
    inner.children.push(Node::Sprite(hidden));
    inner.children.push(Node::Sprite(sprite(3, 1)));
    let mut stack = Stack::new();
    stack.children.push(Node::Row(inner));
    stack.children.push(Node::Optional(Some(Box::new(Node::Sprite(sprite(4, 1))))));
    stack.children.push(Node::Sprite(sprite(5, 1)));
    let root = Node::Stack(stack);
    let width = |n: Result<&Node, u64>| match n {
        Ok(Node::Sprite(s)) => Some(s.location.size.width),
        _ => None,
    };
    assert!(matches!(find(&root, 0), Ok(Node::Stack(_))));
    assert!(matches!(find(&root, 1), Ok(Node::Row(_))));
    assert_eq!(width(find(&root, 2)), Some(Length::Px(1)));
    assert_eq!(width(find(&root, 3)), Some(Length::Px(3)));
    assert!(matches!(find(&root, 4), Ok(Node::Optional(_))));
    assert_eq!(width(find(&root, 5)), Some(Length::Px(4)));
    assert_eq!(width(find(&root, 6)), Some(Length::Px(5)));
    assert_eq!(find(&root, 7).err(), Some(0));
    assert_eq!(find(&root, 9).err(), Some(2));
}

#[test]
fn assets() {
    let mut scene = Scene::new(Node::Stack(Stack::new()));
    scene.prerender(WINDOW).unwrap();
    let rgba = Texture::new(Handle::new(1));
    let indexed = Texture::new(Handle::new(2));
    let gray = Texture::new(Handle::new(3));
    let sheet = Spritesheet::new(Handle::new(10));
    let plain = SpritesheetSettings { texture: rgba, palette: None };
    assert_eq!(sheet.load(&mut scene, plain), Err(AssetError::TextureNotLoaded));
    assert_eq!(scene.changed, SceneChanged { layout: false, render: false });
    rgba.load(&mut scene, TextureFormat::Rgba);
    assert_eq!(scene.changed, SceneChanged { layout: false, render: true });
    indexed.load(&mut scene, TextureFormat::Indexed);
    gray.load(&mut scene, TextureFormat::Grayscale);
    assert_eq!(scene.textures.len(), 3);
    assert_eq!(sheet.load(&mut scene, plain), Ok(()));
    assert_eq!(scene.changed, SceneChanged { layout: true, render: true });
    assert_eq!(scene.env.spritesheets.get(&sheet.handle).map(|s| s.has_palette), Some(false));
    let wrong = SpritesheetSettings { texture: indexed, palette: None };
    assert_eq!(sheet.load(&mut scene, wrong), Err(AssetError::WrongTextureFormat));
    let with = SpritesheetSettings { texture: indexed, palette: Some(rgba) };
    assert_eq!(sheet.load(&mut scene, with), Ok(()));
    assert_eq!(scene.env.spritesheets.len(), 1);
    assert_eq!(scene.env.spritesheets.get(&sheet.handle).map(|s| s.has_palette), Some(true));
    let bad = SpritesheetSettings { texture: rgba, palette: Some(rgba) };
    assert_eq!(sheet.load(&mut scene, bad), Err(AssetError::WrongTextureFormat));
    let bad = SpritesheetSettings { texture: indexed, palette: Some(gray) };
    assert_eq!(sheet.load(&mut scene, bad), Err(AssetError::WrongPaletteFormat));
    let bad = SpritesheetSettings { texture: indexed, palette: Some(Texture::new(Handle::new(99))) };
    assert_eq!(sheet.load(&mut scene, bad), Err(AssetError::PaletteNotLoaded));
    scene.prerender(WINDOW).unwrap();
    sheet.unload(&mut scene);
    assert_eq!(scene.env.spritesheets.len(), 0);
    assert_eq!(scene.changed, SceneChanged { layout: true, render: true });
    let font = BitmapFont::new(Handle::new(20));
    let settings = |texture: Texture| BitmapFontSettings {
        texture,
        supported: BitmapFontSupported { start: ' ', end: '~', replace: '?' },
        columns: 16,
        tile_width: 8,
        tile_height: 16,
    };
    assert_eq!(font.load(&mut scene, settings(rgba)), Err(AssetError::WrongTextureFormat));
    assert_eq!(font.load(&mut scene, settings(Texture::new(Handle::new(98)))), Err(AssetError::TextureNotLoaded));
    assert_eq!(font.load(&mut scene, settings(gray)), Ok(()));
    assert_eq!(scene.env.fonts.get(&font.handle).map(|f| f.columns), Some(16));
    font.unload(&mut scene);
    assert!(scene.env.fonts.get(&font.handle).is_none());
    gray.unload(&mut scene);
    assert_eq!(scene.textures.len(), 2);
    assert!(scene.textures.get(&gray.handle).is_none());
}

#[test]
fn handles() {
    let mut source = HandleSource::new();
    let a = source.make().unwrap();
    let b = source.make().unwrap();
    assert!(!a.eq(&b));
    assert!(a.eq(&a));
    assert_eq!((a.id, b.id), (0, 1));
    let mut last = HandleSource { next: u64::MAX };
    assert_eq!(last.make(), None);
    let mut table: Handles<&str> = Handles::new();
    assert_eq!(table.len(), 0);
    assert_eq!(table.insert(&a, "a"), None);
    assert_eq!(table.insert(&b, "b"), None);
    let c = Handle::new(7);
    assert_eq!(table.insert(&c, "c"), None);
    assert_eq!(table.insert(&a, "again"), Some("a"));
    assert_eq!(table.len(), 3);
    assert_eq!(table.index(&a), Some(0));
    assert_eq!(table.index(&c), Some(2));
    assert_eq!(table.get(&a), Some(&"again"));
    assert_eq!(table.get(&Handle::new(8)), None);
    assert_eq!(table.remove(&a), Some("again"));
    assert_eq!(table.index(&c), Some(0));
    assert_eq!(table.index(&b), Some(1));
    assert_eq!(table.remove(&a), None);
    assert_eq!(table.len(), 2);
}

#[test]
fn windows() {
    let mut source = WindowSource::new();
    assert_eq!(Window::new(&mut source).id(), 1);
    assert_eq!(Window::new(&mut source).id(), 2);
    assert_eq!(source.next, 3);
    let mut last = WindowSource { next: u32::MAX };
    assert_eq!(Window::new(&mut last).id(), u32::MAX);
    assert_eq!(Window::new(&mut last).id(), 0);
}

#[test]
fn bordered_panel() {
    let sheet = Spritesheet::new(Handle::new(1));
    let repeat = RepeatTile { width: Repeat::Count(2 * UNIT), height: Repeat::Count(3 * UNIT) };
    let builder = SpriteBorder::builder();
    assert!(!builder.is_complete());
    let builder = builder
        .spritesheet(sheet)
        .border_size(BorderSize::all(Length::Px(10)))
        .quadrants(QuadrantGrid::equal_size(0, 0, 8, 8).quadrants())
        .repeat_tile(repeat)
        .center(Node::Sprite(sprite(5, 5)));
    assert!(builder.is_complete());
    let node = builder.build();
    let grid = match node {
        Node::BorderGrid(grid) => grid,
        _ => unreachable!(),
    };
    assert_eq!(grid.border_size, Some(BorderSize::all(Length::Px(10))));
    let q = grid.quadrants.unwrap();
    let part = |n: &Node| match n {
        Node::Sprite(s) => (s.tile, s.repeat_tile, s.spritesheet),
        _ => unreachable!(),
    };
    let plain = RepeatTile::default();
    assert_eq!(part(&q.up_left), (Tile { start_x: 0, start_y: 0, end_x: 8, end_y: 8 }, plain, Some(sheet)));
    assert_eq!(part(&q.up).1, RepeatTile { width: Repeat::Count(2 * UNIT), height: Repeat::Stretch });
    assert_eq!(part(&q.down).1, RepeatTile { width: Repeat::Count(2 * UNIT), height: Repeat::Stretch });
    assert_eq!(part(&q.left).1, RepeatTile { width: Repeat::Stretch, height: Repeat::Count(3 * UNIT) });
    assert_eq!(part(&q.right).1, RepeatTile { width: Repeat::Stretch, height: Repeat::Count(3 * UNIT) });
    assert_eq!(part(&q.down_right).0, Tile { start_x: 16, start_y: 16, end_x: 24, end_y: 24 });
    match &q.center {
        Node::Stack(stack) => {
            assert_eq!(stack.children.len(), 2);
            assert_eq!(part(&stack.children[0]).1, repeat);
            assert_eq!(part(&stack.children[0]).0, Tile { start_x: 8, start_y: 8, end_x: 16, end_y: 16 });
            assert_eq!(part(&stack.children[1]).0, Tile { start_x: 0, start_y: 0, end_x: 0, end_y: 0 });
        }
        _ => unreachable!(),
    }
}

#[test]
fn drawing_again_what_has_not_changed_changes_nothing() {
    let mut scene = scene();
    scene.prerender(WINDOW).unwrap();
    let rendered = scene.pass.rendered.clone();
    let sprites = scene.pass.sprites.clone();
    scene.changed.trigger_render_change();
    assert_eq!(scene.prerender(WINDOW), Ok(Frame::Render));
    assert_eq!(scene.pass.rendered, rendered);
    assert_eq!(scene.pass.sprites, sprites);
    // Every leaf is found again by the count that it was remembered with.
    for record in scene.pass.rendered.iter() {
        assert!(matches!(find(&scene.root, record.node), Ok(Node::Sprite(_))));
        assert!(record.order >= UNIT);
    }
}

#[test]
fn invisible_root_is_not_drawn() {
    let mut hidden = sprite(10, 10);
    hidden.visible = false;
    let mut scene = Scene::new(Node::Sprite(hidden));
    assert_eq!(scene.prerender(WINDOW), Ok(Frame::Layout));
    assert_eq!(scene.pass.rendered.len(), 0);
    assert_eq!(scene.pass.visited, 0);
}

#[test]
fn a_scene_that_is_built_wrongly_fails_its_frame() {
    let mut scene = Scene::new(Node::Sprite(Sprite::new()));
    assert_eq!(scene.prerender(WINDOW), Err(LayoutError::MissingSpritesheet));
    assert_eq!(scene.changed, SceneChanged { layout: false, render: false });
}
