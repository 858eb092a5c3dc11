use vstd::prelude::*;
use crate::color::Rgba;
use crate::components::{SubRect, Vec2i};
use crate::game::{spec_draw_eligible, Game};
use crate::store::World;

verus! {

/// One textured quad to paint: the texture name, an optional source
/// sub-rect, the top-left corner, and the on-screen size.
#[derive(Clone, Debug, PartialEq)]
pub struct SpriteDraw {
    pub name: String,
    pub source_rect: Option<SubRect>,
    pub x: i32,
    pub y: i32,
    pub width: u32,
    pub height: u32,
}

/// One rectangle to outline or fill: the top-left corner and the extent as
/// the components store them.
#[derive(Clone, Copy, Debug, PartialEq, Eq, Structural)]
pub struct RectDraw {
    pub x: i32,
    pub y: i32,
    pub width: i32,
    pub height: i32,
}

/// One rectangle to fill, with its tint.
#[derive(Clone, Copy, Debug, PartialEq, Eq, Structural)]
pub struct FillDraw {
    pub x: i32,
    pub y: i32,
    pub width: i32,
    pub height: i32,
    pub color: Rgba,
}

/// One text label to paint at the entity's position, shifted by the label's
/// own offset.
#[derive(Clone, Debug, PartialEq)]
pub struct TextDraw {
    pub text: String,
    pub color: Rgba,
    pub x: i32,
    pub y: i32,
    pub offset: Vec2i,
}

/// The entity at slot `i` paints a sprite: it carries Position, Sprite and
/// Renderable, the sprite is visible, and the layer filter lets it through.
pub open spec fn sprite_drawable_at(w: World, active_layers: u32, i: int) -> bool {
    &&& w.positions@[i] is Some
    &&& w.sprites@[i] is Some
    &&& w.renderables@[i] is Some
    &&& w.sprites@[i]->0.visible
    &&& spec_draw_eligible(w.renderables@[i]->0, active_layers)
}

/// The sprite draw the entity at slot `i` asks for.
pub open spec fn sprite_draw_of(w: World, i: int) -> SpriteDraw {
    let p = w.positions@[i]->0;
    let s = w.sprites@[i]->0;
    SpriteDraw {
        name: s.name,
        source_rect: s.source_rect,
        x: p.x,
        y: p.y,
        width: s.size.x,
        height: s.size.y,
    }
}

/// The sprite draws the first `n` slots ask for, in slot order.
pub open spec fn sprite_draws_upto(w: World, active_layers: u32, n: int) -> Seq<SpriteDraw>
    decreases n,
{
    if n <= 0 {
        Seq::empty()
    } else {
        let pre = sprite_draws_upto(w, active_layers, n - 1);
        if sprite_drawable_at(w, active_layers, n - 1) {
            pre.push(sprite_draw_of(w, n - 1))
        } else {
            pre
        }
    }
}

/// Selects the textured quads to paint this frame: every entity with
/// Position, Sprite and Renderable whose sprite is visible and that passes
/// the layer filter, in slot order.
pub fn texture_draws(w: &World, game: &Game) -> (r: Vec<SpriteDraw>)
    requires
        w.wf(),
    ensures
        r@ == sprite_draws_upto(*w, game.active_layers, w.n() as int),
{
    let mut out: Vec<SpriteDraw> = Vec::new();
    let n = w.alive.len();
    for i in 0..n
        invariant
            w.wf(),
            n == w.n(),
            out@ == sprite_draws_upto(*w, game.active_layers, i as int),
    {
        if w.positions[i].is_some() && w.sprites[i].is_some() && w.renderables[i].is_some() {
            let s = w.sprites[i].as_ref().unwrap();
            let rend = w.renderables[i].unwrap();
            if s.visible && crate::game::draw_eligible(&rend, game.active_layers) {
                let p = w.positions[i].unwrap();
                out.push(
                    SpriteDraw {
                        name: s.name.clone(),
                        source_rect: s.source_rect,
                        x: p.x,
                        y: p.y,
                        width: s.size.x,
                        height: s.size.y,
                    },
                );
            }
        }
        assert(out@ == sprite_draws_upto(*w, game.active_layers, i + 1));
    }
    out
}

/// The entity at slot `i` paints its bounding rectangle: it carries
/// Position, Rectangle and Renderable and passes the layer filter.
pub open spec fn rect_drawable_at(w: World, active_layers: u32, i: int) -> bool {
    &&& w.positions@[i] is Some
    &&& w.rectangles@[i] is Some
    &&& w.renderables@[i] is Some
    &&& spec_draw_eligible(w.renderables@[i]->0, active_layers)
}

/// The rectangle draw the entity at slot `i` asks for.
pub open spec fn rect_draw_of(w: World, i: int) -> RectDraw {
    let p = w.positions@[i]->0;
    let rc = w.rectangles@[i]->0;
    RectDraw { x: p.x, y: p.y, width: rc.width, height: rc.height }
}

/// The rectangle draws the first `n` slots ask for, in slot order.
pub open spec fn rect_draws_upto(w: World, active_layers: u32, n: int) -> Seq<RectDraw>
    decreases n,
{
    if n <= 0 {
        Seq::empty()
    } else {
        let pre = rect_draws_upto(w, active_layers, n - 1);
        if rect_drawable_at(w, active_layers, n - 1) {
            pre.push(rect_draw_of(w, n - 1))
        } else {
            pre
        }
    }
}

/// Selects the bounding-rectangle outlines to paint, in slot order. Meant
/// for debugging overlays.
pub fn rect_draws(w: &World, game: &Game) -> (r: Vec<RectDraw>)
    requires
        w.wf(),
    ensures
        r@ == rect_draws_upto(*w, game.active_layers, w.n() as int),
{
    let mut out: Vec<RectDraw> = Vec::new();
    let n = w.alive.len();
    for i in 0..n
        invariant
            w.wf(),
            n == w.n(),
            out@ == rect_draws_upto(*w, game.active_layers, i as int),
    {
        if w.positions[i].is_some() && w.rectangles[i].is_some() && w.renderables[i].is_some() {
            let rend = w.renderables[i].unwrap();
            if crate::game::draw_eligible(&rend, game.active_layers) {
                let p = w.positions[i].unwrap();
                let rc = w.rectangles[i].unwrap();
                out.push(RectDraw { x: p.x, y: p.y, width: rc.width, height: rc.height });
            }
        }
        assert(out@ == rect_draws_upto(*w, game.active_layers, i + 1));
    }
    out
}

/// The entity at slot `i` paints a filled rectangle: it carries Position,
/// Rectangle, Colored and Renderable and passes the layer filter.
pub open spec fn fill_drawable_at(w: World, active_layers: u32, i: int) -> bool {
    &&& w.positions@[i] is Some
    &&& w.rectangles@[i] is Some
    &&& w.colors@[i] is Some
    &&& w.renderables@[i] is Some
    &&& spec_draw_eligible(w.renderables@[i]->0, active_layers)
}

/// The filled-rectangle draw the entity at slot `i` asks for.
pub open spec fn fill_draw_of(w: World, i: int) -> FillDraw {
    let p = w.positions@[i]->0;
    let rc = w.rectangles@[i]->0;
    let c = w.colors@[i]->0;
    FillDraw { x: p.x, y: p.y, width: rc.width, height: rc.height, color: c.color }
}

/// The filled-rectangle draws the first `n` slots ask for, in slot order.
pub open spec fn fill_draws_upto(w: World, active_layers: u32, n: int) -> Seq<FillDraw>
    decreases n,
{
    if n <= 0 {
        Seq::empty()
    } else {
        let pre = fill_draws_upto(w, active_layers, n - 1);
        if fill_drawable_at(w, active_layers, n - 1) {
            pre.push(fill_draw_of(w, n - 1))
        } else {
            pre
        }
    }
}

/// Selects the filled rectangles to paint, in slot order.
pub fn fill_draws(w: &World, game: &Game) -> (r: Vec<FillDraw>)
    requires
        w.wf(),
    ensures
        r@ == fill_draws_upto(*w, game.active_layers, w.n() as int),
{
    let mut out: Vec<FillDraw> = Vec::new();
    let n = w.alive.len();
    for i in 0..n
        invariant
            w.wf(),
            n == w.n(),
            out@ == fill_draws_upto(*w, game.active_layers, i as int),
    {
        if w.positions[i].is_some() && w.rectangles[i].is_some() && w.colors[i].is_some()
            && w.renderables[i].is_some() {
            let rend = w.renderables[i].unwrap();
            if crate::game::draw_eligible(&rend, game.active_layers) {
                let p = w.positions[i].unwrap();
                let rc = w.rectangles[i].unwrap();
                let c = w.colors[i].unwrap();
                out.push(
                    FillDraw {
                        x: p.x,
                        y: p.y,
                        width: rc.width,
                        height: rc.height,
                        color: c.color,
                    },
                );
            }
        }
        assert(out@ == fill_draws_upto(*w, game.active_layers, i + 1));
    }
    out
}

/// The entity at slot `i` paints a text label: it carries Position, Text and
/// Renderable, the label is visible, and the layer filter lets it through.
pub open spec fn text_drawable_at(w: World, active_layers: u32, i: int) -> bool {
    &&& w.positions@[i] is Some
    &&& w.texts@[i] is Some
    &&& w.renderables@[i] is Some
    &&& w.texts@[i]->0.visible
    &&& spec_draw_eligible(w.renderables@[i]->0, active_layers)
}

/// The text draw the entity at slot `i` asks for.
pub open spec fn text_draw_of(w: World, i: int) -> TextDraw {
    let p = w.positions@[i]->0;
    let t = w.texts@[i]->0;
    TextDraw { text: t.text, color: t.color, x: p.x, y: p.y, offset: t.offset }
}

/// The text draws the first `n` slots ask for, in slot order.
pub open spec fn text_draws_upto(w: World, active_layers: u32, n: int) -> Seq<TextDraw>
    decreases n,
{
    if n <= 0 {
        Seq::empty()
    } else {
        let pre = text_draws_upto(w, active_layers, n - 1);
        if text_drawable_at(w, active_layers, n - 1) {
            pre.push(text_draw_of(w, n - 1))
        } else {
            pre
        }
    }
}

/// Selects the text labels to paint, in slot order. The label is drawn at
/// the entity's position shifted by the label's own offset.
pub fn text_draws(w: &World, game: &Game) -> (r: Vec<TextDraw>)
    requires
        w.wf(),
    ensures
        r@ == text_draws_upto(*w, game.active_layers, w.n() as int),
{
    let mut out: Vec<TextDraw> = Vec::new();
    let n = w.alive.len();
    for i in 0..n
        invariant
            w.wf(),
            n == w.n(),
            out@ == text_draws_upto(*w, game.active_layers, i as int),
    {
        if w.positions[i].is_some() && w.texts[i].is_some() && w.renderables[i].is_some() {
            let t = w.texts[i].as_ref().unwrap();
            let rend = w.renderables[i].unwrap();
            if t.visible && crate::game::draw_eligible(&rend, game.active_layers) {
                let p = w.positions[i].unwrap();
                out.push(
                    TextDraw {
                        text: t.text.clone(),
                        color: t.color,
                        x: p.x,
                        y: p.y,
                        offset: t.offset,
                    },
                );
            }
        }
        assert(out@ == text_draws_upto(*w, game.active_layers, i + 1));
    }
    out
}

} // verus!
