//! What a pass has to draw, sorted by the asset that it is drawn from.

use vstd::prelude::*;
use crate::handles::Handle;
use crate::sprite::{GlyphInstance, SpriteInstance};

verus! {

/// Whether a sprite belongs to the opaque, or else the blended, sprites of
/// a spritesheet.
pub open spec fn in_batch_spec(sprite: SpriteInstance, sheet: Handle, opaque: bool) -> bool {
    sprite.spritesheet == sheet && (sprite.instance.alpha == crate::number::UNIT) == opaque
}

/// Those of the first `n` sprites that are drawn from `sheet`, opaquely or
/// else blended, in their order.
pub open spec fn sprites_spec(sprites: Seq<SpriteInstance>, sheet: Handle, opaque: bool, n: int) -> Seq<SpriteInstance>
    decreases n,
{
    if n <= 0 || n > sprites.len() {
        Seq::empty()
    } else {
        let before = sprites_spec(sprites, sheet, opaque, n - 1);
        if in_batch_spec(sprites[n - 1], sheet, opaque) {
            before.push(sprites[n - 1])
        } else {
            before
        }
    }
}

/// Picks the sprites that are drawn from one spritesheet: the opaque ones,
/// or else the blended ones.
pub fn sprites_of(sprites: &Vec<SpriteInstance>, sheet: &Handle, opaque: bool) -> (r: Vec<SpriteInstance>)
    ensures
        r@ == sprites_spec(sprites@, *sheet, opaque, sprites@.len() as int),
{
    let mut out: Vec<SpriteInstance> = Vec::new();
    let mut i: usize = 0;
    while i < sprites.len()
        invariant
            0 <= i <= sprites@.len(),
            out@ == sprites_spec(sprites@, *sheet, opaque, i as int),
        decreases sprites@.len() - i,
    {
        let sprite = sprites[i];
        if sprite.spritesheet.eq(sheet) && sprite.instance.is_opaque() == opaque {
            out.push(sprite);
        }
        i = i + 1;
    }
    out
}

/// Those of the first `n` glyphs that are drawn from `font`, in their order.
pub open spec fn glyphs_spec(glyphs: Seq<GlyphInstance>, font: Handle, n: int) -> Seq<GlyphInstance>
    decreases n,
{
    if n <= 0 || n > glyphs.len() {
        Seq::empty()
    } else {
        let before = glyphs_spec(glyphs, font, n - 1);
        if glyphs[n - 1].font == font {
            before.push(glyphs[n - 1])
        } else {
            before
        }
    }
}

/// Picks the glyphs that are drawn from one font.
pub fn glyphs_of(glyphs: &Vec<GlyphInstance>, font: &Handle) -> (r: Vec<GlyphInstance>)
    ensures
        r@ == glyphs_spec(glyphs@, *font, glyphs@.len() as int),
{
    let mut out: Vec<GlyphInstance> = Vec::new();
    let mut i: usize = 0;
    while i < glyphs.len()
        invariant
            0 <= i <= glyphs@.len(),
            out@ == glyphs_spec(glyphs@, *font, i as int),
        decreases glyphs@.len() - i,
    {
        let glyph = glyphs[i];
        if glyph.font.eq(font) {
            out.push(glyph);
        }
        i = i + 1;
    }
    out
}

/// Every sprite of a spritesheet is among its opaque or among its blended
/// sprites, and never among both.
pub proof fn lemma_batches_part(sprites: Seq<SpriteInstance>, sheet: Handle, n: int)
    requires
        0 <= n <= sprites.len(),
    ensures
        sprites_spec(sprites, sheet, true, n).len() + sprites_spec(sprites, sheet, false, n).len() <= n,
        forall|i: int| 0 <= i < sprites_spec(sprites, sheet, true, n).len()
            ==> (#[trigger] sprites_spec(sprites, sheet, true, n)[i]).instance.alpha == crate::number::UNIT,
        forall|i: int| 0 <= i < sprites_spec(sprites, sheet, false, n).len()
            ==> (#[trigger] sprites_spec(sprites, sheet, false, n)[i]).instance.alpha != crate::number::UNIT,
    decreases n,
{
    if n > 0 {
        lemma_batches_part(sprites, sheet, n - 1);
    }
}

} // verus!
