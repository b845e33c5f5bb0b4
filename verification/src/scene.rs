//! The scene: a tree of nodes, the assets that are loaded, and the two
//! flags that decide what a frame has to do.

use vstd::prelude::*;
use crate::arrange::{Env, LeafKind, Pass, PassState, Rendered, layout, layout_spec, sprite_instance_spec};
use crate::bitmap_text::{BitmapFont, BitmapFontState, BitmapFontSupported};
use crate::error::LayoutError;
use crate::handles::Handles;
use crate::location::ScreenSize;
use crate::node::{Node, find, find_spec};
use crate::sprite::{Sprite, SpriteInstance, Spritesheet, SpritesheetState, Texture};
use crate::units::RealLocation;

verus! {

/// The size of the window in pixels.
#[derive(Clone, Copy, Debug, PartialEq, Eq, Structural)]
pub struct WindowSize {
    pub width: u32,
    pub height: u32,
}

/// Gives each window an id of its own, starting with one.
#[derive(Clone, Copy, Debug, PartialEq, Eq, Structural)]
pub struct WindowSource {
    pub next: u32,
}

impl WindowSource {
    /// A source that has made no window yet.
    pub fn new() -> (r: Self)
        ensures
            r.next == 1,
    {
        WindowSource { next: 1 }
    }
}

/// A window that the scene is drawn into. Its id is its view.
#[derive(Clone, Copy, Debug, PartialEq, Eq)]
pub struct Window {
    id: u32,
}

impl View for Window {
    type V = u32;

    closed spec fn view(&self) -> u32 {
        self.id
    }
}

impl Window {
    /// Makes a window with the next id of `source`, which no window of that
    /// source has had before. After the last id the ids start again at zero.
    pub fn new(source: &mut WindowSource) -> (r: Self)
        ensures
            r@ == old(source).next,
            final(source).next == if old(source).next == u32::MAX { 0u32 } else { (old(source).next + 1) as u32 },
    {
        let id = source.next;
        source.next = if id == u32::MAX { 0 } else { id + 1 };
        Window { id }
    }

    /// The unique ID for this [`Window`].
    pub fn id(&self) -> (r: u32)
        ensures
            r == self@,
    {
        self.id
    }
}

/// What a change of a node's property asks of the next frame.
#[derive(Clone, Copy, Debug, PartialEq, Eq, Structural)]
pub enum BuilderChanged {
    /// Nothing that can be seen has changed.
    Unchanged,
    /// The layout has to be done again.
    Layout,
    /// The leaves have to be drawn again, in their places.
    Render,
}

/// Keeps track of whether the layout / render needs updating.
#[derive(Clone, Copy, Debug, PartialEq, Eq, Structural)]
pub struct SceneChanged {
    pub layout: bool,
    pub render: bool,
}

impl SceneChanged {
    /// The flags of a scene that has never been drawn: both are set.
    pub fn new() -> (r: Self)
        ensures
            r == (SceneChanged { layout: true, render: true }),
    {
        SceneChanged { layout: true, render: true }
    }

    /// Notifies that the layout has changed, and with it what is drawn.
    pub fn trigger_layout_change(&mut self)
        ensures
            *final(self) == (SceneChanged { layout: true, render: true }),
    {
        self.layout = true;
        self.trigger_render_change();
    }

    /// Notifies that the rendering has changed.
    pub fn trigger_render_change(&mut self)
        ensures
            *final(self) == (SceneChanged { layout: old(self).layout, render: true }),
    {
        self.render = true;
    }

    /// Whether anything has to be drawn again.
    pub fn is_render_changed(&self) -> (r: bool)
        ensures
            r == self.render,
    {
        self.render
    }

    /// Clears the layout flag and returns what it was.
    pub fn replace_layout_changed(&mut self) -> (r: bool)
        ensures
            r == old(self).layout,
            *final(self) == (SceneChanged { layout: false, render: old(self).render }),
    {
        let was = self.layout;
        self.layout = false;
        was
    }

    /// Clears the render flag and returns what it was.
    pub fn replace_render_changed(&mut self) -> (r: bool)
        ensures
            r == old(self).render,
            *final(self) == (SceneChanged { layout: old(self).layout, render: false }),
    {
        let was = self.render;
        self.render = false;
        was
    }
}

impl BuilderChanged {
    /// The flags after the change has been reported.
    pub open spec fn trigger_spec(self, root: SceneChanged) -> SceneChanged {
        match self {
            BuilderChanged::Unchanged => root,
            BuilderChanged::Layout => SceneChanged { layout: true, render: true },
            BuilderChanged::Render => SceneChanged { layout: root.layout, render: true },
        }
    }

    /// Reports the change to the scene.
    pub fn trigger(&self, root: &mut SceneChanged)
        ensures
            *final(root) == self.trigger_spec(*old(root)),
    {
        match self {
            BuilderChanged::Unchanged => {},
            BuilderChanged::Layout => {
                root.trigger_layout_change();
            },
            BuilderChanged::Render => {
                root.trigger_render_change();
            },
        }
    }

    /// What the change of a node asks for: nothing, if the node is invisible
    /// after the change.
    pub open spec fn when_visible_spec(self, visible: bool) -> Self {
        if visible {
            self
        } else {
            BuilderChanged::Unchanged
        }
    }

    /// Drops the change of a node that cannot be seen.
    pub fn when_visible(self, visible: bool) -> (r: Self)
        ensures
            r == self.when_visible_spec(visible),
    {
        if visible {
            self
        } else {
            BuilderChanged::Unchanged
        }
    }
}

/// What a frame did.
#[derive(Clone, Copy, Debug, PartialEq, Eq, Structural)]
pub enum Frame {
    /// Nothing had changed.
    Idle,
    /// The scene was measured and arranged, and every leaf drawn anew.
    Layout,
    /// The leaves of the last layout were drawn again in their places.
    Render,
}

/// What a texture holds.
#[derive(Clone, Copy, Debug, PartialEq, Eq, Structural)]
pub enum TextureFormat {
    /// Colours.
    Rgba,
    /// Places in a palette.
    Indexed,
    /// Shades of grey.
    Grayscale,
}

/// Why an asset could not be loaded.
#[derive(Clone, Copy, Debug, PartialEq, Eq, Structural)]
pub enum AssetError {
    /// The texture of the asset is not loaded.
    TextureNotLoaded,
    /// The palette of the spritesheet is not loaded.
    PaletteNotLoaded,
    /// The texture does not hold what the asset needs.
    WrongTextureFormat,
    /// The palette does not hold colours.
    WrongPaletteFormat,
}

/// What a spritesheet is made of.
#[derive(Clone, Copy, Debug, PartialEq, Eq, Structural)]
pub struct SpritesheetSettings {
    pub texture: Texture,
    pub palette: Option<Texture>,
}

/// What a bitmap font is made of.
#[derive(Clone, Copy, Debug, PartialEq, Eq, Structural)]
pub struct BitmapFontSettings {
    pub texture: Texture,
    pub supported: BitmapFontSupported,
    pub columns: u32,
    pub tile_width: u32,
    pub tile_height: u32,
}

/// The scene graph and everything that a frame needs to draw it.
pub struct Scene {
    pub root: Node,
    pub changed: SceneChanged,
    pub env: Env,
    pub textures: Handles<TextureFormat>,
    /// What the last layout pass left: the leaves that were drawn, in order,
    /// and what the renderer draws for them.
    pub pass: Pass,
}

/// What the renderer draws for the sprite of `record` now: the sprite at
/// the place it was given in the last layout.
pub open spec fn refreshed_spec(root: Node, env: Env, record: Rendered, sprites: Seq<SpriteInstance>) -> Result<Seq<SpriteInstance>, LayoutError> {
    match record.kind {
        LeafKind::Text => Ok(sprites),
        LeafKind::Sprite => match find_spec(root, record.node) {
            Ok(Node::Sprite(sprite)) => if sprite.alpha == 0 {
                Err(LayoutError::Mismatch)
            } else {
                match record.instance {
                    None => Ok(sprites),
                    Some(index) => if index >= sprites.len() {
                        Err(LayoutError::Mismatch)
                    } else {
                        match sprite.instance_spec(record.parent, record.smallest, env.screen, record.max_order) {
                            Err(e) => Err(e),
                            Ok(instance) => match sprite_instance_spec(sprite, instance, env) {
                                Err(e) => Err(e),
                                Ok(None) => Ok(sprites),
                                Ok(Some(drawn)) => Ok(sprites.update(index as int, drawn)),
                            },
                        }
                    },
                }
            },
            _ => Err(LayoutError::Mismatch),
        },
    }
}

/// The sprites to draw after the first `n` leaves of the last layout have
/// been drawn again.
pub open spec fn render_spec(root: Node, env: Env, rendered: Seq<Rendered>, sprites: Seq<SpriteInstance>, n: int) -> Result<Seq<SpriteInstance>, LayoutError>
    decreases n,
{
    if n <= 0 || n > rendered.len() {
        Ok(sprites)
    } else {
        match render_spec(root, env, rendered, sprites, n - 1) {
            Err(e) => Err(e),
            Ok(before) => refreshed_spec(root, env, rendered[n - 1], before),
        }
    }
}

/// An error among the first `i` leaves is the error of every longer prefix.
pub proof fn lemma_render_error(root: Node, env: Env, rendered: Seq<Rendered>, sprites: Seq<SpriteInstance>, i: int, n: int)
    requires
        0 <= i <= n <= rendered.len(),
        render_spec(root, env, rendered, sprites, i) is Err,
    ensures
        render_spec(root, env, rendered, sprites, n) == render_spec(root, env, rendered, sprites, i),
    decreases n - i,
{
    if i < n {
        lemma_render_error(root, env, rendered, sprites, i, n - 1);
    }
}

impl Scene {
    /// A scene that has not been drawn yet, with nothing loaded.
    pub fn new(root: Node) -> (r: Self)
        ensures
            r.root == root,
            r.changed == (SceneChanged { layout: true, render: true }),
            r.env.spritesheets.values@.len() == 0,
            r.env.fonts.values@.len() == 0,
            r.textures.values@.len() == 0,
            r.pass@ == PassState::start_spec(),
    {
        Scene {
            root,
            changed: SceneChanged::new(),
            env: Env { screen: ScreenSize::new(1, 1), spritesheets: Handles::new(), fonts: Handles::new() },
            textures: Handles::new(),
            pass: Pass::new(),
        }
    }

    /// Whether the next frame has anything to do.
    pub fn should_render(&self) -> (r: bool)
        ensures
            r == self.changed.render,
    {
        self.changed.is_render_changed()
    }

    /// The environment of a frame in a window of size `window`.
    pub open spec fn env_spec(self, window: WindowSize) -> Env {
        Env {
            screen: ScreenSize::new_spec(window.width, window.height),
            spritesheets: self.env.spritesheets,
            fonts: self.env.fonts,
        }
    }

    /// What a layout pass over the whole scene leaves.
    pub open spec fn layout_pass_spec(self, window: WindowSize) -> Result<PassState, LayoutError> {
        layout_spec(self.root, RealLocation::full_spec(), self.env_spec(window), PassState::start_spec())
    }

    /// What a render pass leaves: the sprites of the last layout, each drawn
    /// as its node is now.
    pub open spec fn render_pass_spec(self, window: WindowSize) -> Result<PassState, LayoutError> {
        match render_spec(self.root, self.env_spec(window), self.pass@.rendered, self.pass@.sprites, self.pass@.rendered.len() as int) {
            Err(e) => Err(e),
            Ok(sprites) => Ok(PassState { sprites, ..self.pass@ }),
        }
    }

    /// What a frame does: a layout pass if the layout has changed, else a
    /// render pass if anything else has, else nothing.
    pub open spec fn frame_spec(self) -> Frame {
        if self.changed.layout {
            Frame::Layout
        } else if self.changed.render {
            Frame::Render
        } else {
            Frame::Idle
        }
    }

    /// What a frame leaves to draw.
    pub open spec fn prerender_spec(self, window: WindowSize) -> Result<PassState, LayoutError> {
        match self.frame_spec() {
            Frame::Layout => self.layout_pass_spec(window),
            Frame::Render => self.render_pass_spec(window),
            Frame::Idle => Ok(self.pass@),
        }
    }

    fn render_pass(&mut self) -> (r: Result<(), LayoutError>)
        ensures
            final(self).root == old(self).root,
            final(self).env == old(self).env,
            final(self).changed == old(self).changed,
            final(self).textures == old(self).textures,
            match r {
                Ok(()) => {
                    &&& render_spec(old(self).root, old(self).env, old(self).pass@.rendered, old(self).pass@.sprites, old(self).pass@.rendered.len() as int)
                        == Ok::<Seq<SpriteInstance>, LayoutError>(final(self).pass@.sprites)
                    &&& final(self).pass@ == (PassState { sprites: final(self).pass@.sprites, ..old(self).pass@ })
                },
                Err(e) => render_spec(old(self).root, old(self).env, old(self).pass@.rendered, old(self).pass@.sprites, old(self).pass@.rendered.len() as int)
                    == Err::<Seq<SpriteInstance>, LayoutError>(e),
            },
    {
        let mut i: usize = 0;
        while i < self.pass.rendered.len()
            invariant
                0 <= i <= self.pass.rendered@.len(),
                self.root == old(self).root,
                self.env == old(self).env,
                self.changed == old(self).changed,
                self.textures == old(self).textures,
                self.pass@ == (PassState { sprites: self.pass@.sprites, ..old(self).pass@ }),
                render_spec(old(self).root, old(self).env, old(self).pass@.rendered, old(self).pass@.sprites, i as int)
                    == Ok::<Seq<SpriteInstance>, LayoutError>(self.pass@.sprites),
            decreases self.pass.rendered@.len() - i,
        {
            let record = self.pass.rendered[i];
            match Self::refreshed(&self.root, &self.env, &record, &self.pass.sprites) {
                Err(e) => {
                    proof {
                        lemma_render_error(old(self).root, old(self).env, old(self).pass@.rendered, old(self).pass@.sprites, i as int + 1, old(self).pass@.rendered.len() as int);
                    }
                    return Err(e);
                },
                Ok(None) => {},
                Ok(Some((index, drawn))) => {
                    self.pass.sprites.set(index, drawn);
                },
            }
            i = i + 1;
        }
        Ok(())
    }

    /// Works out what is drawn now for one leaf of the last layout.
    fn refreshed(root: &Node, env: &Env, record: &Rendered, sprites: &Vec<SpriteInstance>) -> (r: Result<Option<(usize, SpriteInstance)>, LayoutError>)
        ensures
            match r {
                Ok(None) => refreshed_spec(*root, *env, *record, sprites@) == Ok::<Seq<SpriteInstance>, LayoutError>(sprites@),
                Ok(Some((index, drawn))) => index < sprites@.len()
                    && refreshed_spec(*root, *env, *record, sprites@) == Ok::<Seq<SpriteInstance>, LayoutError>(sprites@.update(index as int, drawn)),
                Err(e) => refreshed_spec(*root, *env, *record, sprites@) == Err::<Seq<SpriteInstance>, LayoutError>(e),
            },
    {
        match record.kind {
            LeafKind::Text => Ok(None),
            LeafKind::Sprite => {
                let sprite: &Sprite = match find(root, record.node) {
                    Ok(Node::Sprite(sprite)) => sprite,
                    _ => { return Err(LayoutError::Mismatch); },
                };
                if sprite.alpha == 0 {
                    return Err(LayoutError::Mismatch);
                }
                let index = match record.instance {
                    None => { return Ok(None); },
                    Some(index) => index,
                };
                if index >= sprites.len() {
                    return Err(LayoutError::Mismatch);
                }
                let instance = match sprite.instance(&record.parent, &record.smallest, &env.screen, record.max_order) {
                    Ok(instance) => instance,
                    Err(e) => { return Err(e); },
                };
                let sheet = match &sprite.spritesheet {
                    None => { return Err(LayoutError::MissingSpritesheet); },
                    Some(sheet) => sheet,
                };
                match env.spritesheets.get(&sheet.handle) {
                    None => Ok(None),
                    Some(state) => {
                        if state.has_palette && sprite.palette.is_none() {
                            return Err(LayoutError::MissingPalette);
                        }
                        if !state.has_palette && sprite.palette.is_some() {
                            return Err(LayoutError::UnexpectedPalette);
                        }
                        Ok(Some((index, SpriteInstance { spritesheet: sheet.handle, instance, palette: sprite.palette })))
                    },
                }
            },
        }
    }

    /// Does one frame's work, for a window of `window` pixels.
    ///
    /// If the layout has changed, the scene is measured and arranged from
    /// the root, and the list of leaves is built from scratch. If only the
    /// rendering has changed, the leaves of the last layout are drawn again
    /// where they are. Either way both flags are cleared.
    pub fn prerender(&mut self, window: WindowSize) -> (r: Result<Frame, LayoutError>)
        ensures
            final(self).root == old(self).root,
            final(self).textures == old(self).textures,
            final(self).env.spritesheets == old(self).env.spritesheets,
            final(self).env.fonts == old(self).env.fonts,
            final(self).changed == (SceneChanged { layout: false, render: false }),
            match r {
                Ok(frame) => {
                    &&& frame == old(self).frame_spec()
                    &&& old(self).prerender_spec(window) == Ok::<PassState, LayoutError>(final(self).pass@)
                },
                Err(e) => old(self).prerender_spec(window) == Err::<PassState, LayoutError>(e),
            },
    {
        let layout_changed = self.changed.replace_layout_changed();
        let render_changed = self.changed.replace_render_changed();
        self.env.screen = ScreenSize::new(window.width, window.height);
        proof {
            assert(self.env == old(self).env_spec(window));
        }
        if layout_changed {
            self.pass = Pass::new();
            match layout(&self.root, &RealLocation::full(), &self.env, &mut self.pass) {
                Ok(()) => Ok(Frame::Layout),
                Err(e) => Err(e),
            }
        } else if render_changed {
            match self.render_pass() {
                Ok(()) => Ok(Frame::Render),
                Err(e) => Err(e),
            }
        } else {
            Ok(Frame::Idle)
        }
    }
}

impl Texture {
    /// Tells the scene that the texture is loaded and what it holds.
    pub fn load(&self, scene: &mut Scene, format: TextureFormat)
        ensures
            final(scene).textures.get_spec(self.handle) == Some(format),
            old(scene).textures.wf() ==> final(scene).textures.wf(),
            final(scene).changed == (SceneChanged { layout: old(scene).changed.layout, render: true }),
            final(scene).root == old(scene).root,
            final(scene).env == old(scene).env,
            final(scene).pass == old(scene).pass,
    {
        scene.textures.insert(&self.handle, format);
        scene.changed.trigger_render_change();
    }

    /// Tells the scene that the texture is gone.
    pub fn unload(&self, scene: &mut Scene)
        ensures
            old(scene).textures.wf() ==> final(scene).textures.wf() && final(scene).textures.get_spec(self.handle) is None,
            final(scene).changed == (SceneChanged { layout: old(scene).changed.layout, render: true }),
            final(scene).root == old(scene).root,
            final(scene).env == old(scene).env,
            final(scene).pass == old(scene).pass,
    {
        scene.textures.remove(&self.handle);
        scene.changed.trigger_render_change();
    }
}

impl Spritesheet {
    /// Whether a spritesheet can be made of `settings`: its texture must be
    /// loaded, and so must its palette if it has one. With a palette the
    /// texture holds places in it and the palette holds colours; without
    /// one the texture holds colours.
    pub open spec fn check_spec(textures: Handles<TextureFormat>, settings: SpritesheetSettings) -> Result<SpritesheetState, AssetError> {
        match textures.get_spec(settings.texture.handle) {
            None => Err(AssetError::TextureNotLoaded),
            Some(texture) => match settings.palette {
                None => if texture == TextureFormat::Rgba {
                    Ok(SpritesheetState { has_palette: false })
                } else {
                    Err(AssetError::WrongTextureFormat)
                },
                Some(palette) => match textures.get_spec(palette.handle) {
                    None => Err(AssetError::PaletteNotLoaded),
                    Some(colours) => if texture != TextureFormat::Indexed {
                        Err(AssetError::WrongTextureFormat)
                    } else if colours != TextureFormat::Rgba {
                        Err(AssetError::WrongPaletteFormat)
                    } else {
                        Ok(SpritesheetState { has_palette: true })
                    },
                },
            },
        }
    }

    /// Loads the spritesheet into the scene, which then has to be laid out
    /// again. Nothing changes if the spritesheet cannot be made.
    pub fn load(&self, scene: &mut Scene, settings: SpritesheetSettings) -> (r: Result<(), AssetError>)
        ensures
            final(scene).root == old(scene).root,
            final(scene).textures == old(scene).textures,
            final(scene).pass == old(scene).pass,
            final(scene).env.fonts == old(scene).env.fonts,
            final(scene).env.screen == old(scene).env.screen,
            match r {
                Ok(()) => {
                    &&& Self::check_spec(old(scene).textures, settings) is Ok
                    &&& final(scene).env.spritesheets.get_spec(self.handle) == Some(Self::check_spec(old(scene).textures, settings)->Ok_0)
                    &&& final(scene).changed == (SceneChanged { layout: true, render: true })
                },
                Err(e) => {
                    &&& Self::check_spec(old(scene).textures, settings) == Err::<SpritesheetState, AssetError>(e)
                    &&& final(scene).env.spritesheets == old(scene).env.spritesheets
                    &&& final(scene).changed == old(scene).changed
                },
            },
    {
        let texture = match scene.textures.get(&settings.texture.handle) {
            None => { return Err(AssetError::TextureNotLoaded); },
            Some(texture) => *texture,
        };
        let state = match &settings.palette {
            None => {
                if texture != TextureFormat::Rgba {
                    return Err(AssetError::WrongTextureFormat);
                }
                SpritesheetState { has_palette: false }
            },
            Some(palette) => {
                let colours = match scene.textures.get(&palette.handle) {
                    None => { return Err(AssetError::PaletteNotLoaded); },
                    Some(colours) => *colours,
                };
                if texture != TextureFormat::Indexed {
                    return Err(AssetError::WrongTextureFormat);
                }
                if colours != TextureFormat::Rgba {
                    return Err(AssetError::WrongPaletteFormat);
                }
                SpritesheetState { has_palette: true }
            },
        };
        scene.env.spritesheets.insert(&self.handle, state);
        scene.changed.trigger_layout_change();
        Ok(())
    }

    /// Takes the spritesheet out of the scene, which then has to be laid out
    /// again.
    pub fn unload(&self, scene: &mut Scene)
        ensures
            old(scene).env.spritesheets.wf() ==> final(scene).env.spritesheets.wf()
                && final(scene).env.spritesheets.get_spec(self.handle) is None,
            final(scene).changed == (SceneChanged { layout: true, render: true }),
            final(scene).root == old(scene).root,
            final(scene).textures == old(scene).textures,
            final(scene).pass == old(scene).pass,
            final(scene).env.fonts == old(scene).env.fonts,
    {
        scene.env.spritesheets.remove(&self.handle);
        scene.changed.trigger_layout_change();
    }
}

impl BitmapFont {
    /// Whether a font can be made of `settings`: its texture must be loaded
    /// and hold shades of grey.
    pub open spec fn check_spec(textures: Handles<TextureFormat>, settings: BitmapFontSettings) -> Result<BitmapFontState, AssetError> {
        match textures.get_spec(settings.texture.handle) {
            None => Err(AssetError::TextureNotLoaded),
            Some(texture) => if texture == TextureFormat::Grayscale {
                Ok(BitmapFontState {
                    columns: settings.columns,
                    tile_width: settings.tile_width,
                    tile_height: settings.tile_height,
                    supported: settings.supported,
                })
            } else {
                Err(AssetError::WrongTextureFormat)
            },
        }
    }

    /// Loads the font into the scene, which then has to be laid out again.
    /// Nothing changes if the font cannot be made.
    pub fn load(&self, scene: &mut Scene, settings: BitmapFontSettings) -> (r: Result<(), AssetError>)
        ensures
            final(scene).root == old(scene).root,
            final(scene).textures == old(scene).textures,
            final(scene).pass == old(scene).pass,
            final(scene).env.spritesheets == old(scene).env.spritesheets,
            final(scene).env.screen == old(scene).env.screen,
            match r {
                Ok(()) => {
                    &&& Self::check_spec(old(scene).textures, settings) is Ok
                    &&& final(scene).env.fonts.get_spec(self.handle) == Some(Self::check_spec(old(scene).textures, settings)->Ok_0)
                    &&& final(scene).changed == (SceneChanged { layout: true, render: true })
                },
                Err(e) => {
                    &&& Self::check_spec(old(scene).textures, settings) == Err::<BitmapFontState, AssetError>(e)
                    &&& final(scene).env.fonts == old(scene).env.fonts
                    &&& final(scene).changed == old(scene).changed
                },
            },
    {
        let texture = match scene.textures.get(&settings.texture.handle) {
            None => { return Err(AssetError::TextureNotLoaded); },
            Some(texture) => *texture,
        };
        if texture != TextureFormat::Grayscale {
            return Err(AssetError::WrongTextureFormat);
        }
        scene.env.fonts.insert(&self.handle, BitmapFontState {
            columns: settings.columns,
            tile_width: settings.tile_width,
            tile_height: settings.tile_height,
            supported: settings.supported,
        });
        scene.changed.trigger_layout_change();
        Ok(())
    }

    /// Takes the font out of the scene, which then has to be laid out again.
    pub fn unload(&self, scene: &mut Scene)
        ensures
            old(scene).env.fonts.wf() ==> final(scene).env.fonts.wf() && final(scene).env.fonts.get_spec(self.handle) is None,
            final(scene).changed == (SceneChanged { layout: true, render: true }),
            final(scene).root == old(scene).root,
            final(scene).textures == old(scene).textures,
            final(scene).pass == old(scene).pass,
            final(scene).env.spritesheets == old(scene).env.spritesheets,
    {
        scene.env.fonts.remove(&self.handle);
        scene.changed.trigger_layout_change();
    }
}

/// Idempotence: what a layout pass leaves depends on the scene graph, the
/// loaded assets and the size of the window, and on nothing else. Doing the
/// layout again with all of these unchanged gives every leaf the same place
/// and order again, whatever the pass before has left.
pub proof fn lemma_layout_idempotent(first: Scene, second: Scene, window: WindowSize)
    requires
        first.changed.layout,
        second.changed.layout,
        second.root == first.root,
        second.env.spritesheets == first.env.spritesheets,
        second.env.fonts == first.env.fonts,
    ensures
        second.prerender_spec(window) == first.prerender_spec(window),
{
    assert(second.env_spec(window) == first.env_spec(window));
}

/// A frame without changes leaves everything as it is, and after any frame
/// the next one has nothing to do until something changes.
pub proof fn lemma_idle(scene: Scene, window: WindowSize)
    requires
        !scene.changed.layout,
        !scene.changed.render,
    ensures
        scene.frame_spec() == Frame::Idle,
        scene.prerender_spec(window) == Ok::<PassState, LayoutError>(scene.pass@),
{
}

} // verus!
