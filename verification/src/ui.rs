use vstd::prelude::*;
use crate::color::Rgba;
use crate::components::{Colored, Position, Rectangle, Sprite, Text};
use crate::store::{Entity, World};

verus! {

/// Per-frame snapshot of the pointer: its position and whether the primary
/// button was pressed this frame.
#[derive(Clone, Copy, Debug, PartialEq, Eq, Structural)]
pub struct MouseData {
    pub x: i32,
    pub y: i32,
    pub pressed: bool,
}

impl Default for MouseData {
    /// The pointer rests at the origin, not pressed.
    fn default() -> (m: MouseData)
        ensures
            m == (MouseData { x: 0i32, y: 0i32, pressed: false }),
    {
        MouseData { x: 0, y: 0, pressed: false }
    }
}

/// The action a button stands for. The kind selects which downstream pass
/// reacts to a press of the button.
#[derive(Clone, Copy, Debug, PartialEq, Eq, Structural)]
pub enum ButtonKind {
    /// A button with no dedicated action of its own.
    Plain,
    Continue,
    Save,
    Load,
    Exit,
    /// The header of a dropdown menu; pressing it toggles the menu.
    DropdownParent,
}

/// Interaction state of a clickable entity, with optional per-state visual
/// overrides. An override that is `None` leaves the component value alone.
#[derive(Clone, Debug, PartialEq)]
pub struct Button {
    pub hovered_over: bool,
    pub kind: ButtonKind,
    pub hovered_over_texture_name: Option<String>,
    pub hovered_over_text: Option<String>,
    pub hovered_over_color: Option<Rgba>,
    pub normal_texture_name: Option<String>,
    pub normal_text: Option<String>,
    pub normal_color: Option<Rgba>,
}

impl Default for Button {
    /// A plain button without visual overrides, not hovered.
    fn default() -> (b: Button)
        ensures
            b == (Button {
                hovered_over: false,
                kind: ButtonKind::Plain,
                hovered_over_texture_name: None::<String>,
                hovered_over_text: None::<String>,
                hovered_over_color: None::<Rgba>,
                normal_texture_name: None::<String>,
                normal_text: None::<String>,
                normal_color: None::<Rgba>,
            }),
    {
        Button {
            hovered_over: false,
            kind: ButtonKind::Plain,
            hovered_over_texture_name: None,
            hovered_over_text: None,
            hovered_over_color: None,
            normal_texture_name: None,
            normal_text: None,
            normal_color: None,
        }
    }
}

/// The parent of a dropdown menu: the entity whose press unfolds or folds
/// the menu's child items.
#[derive(Clone, Copy, Debug, PartialEq, Eq, Structural)]
pub struct DropdownMenuParent {
    pub unwrapped: bool,
}

impl Default for DropdownMenuParent {
    /// A fresh dropdown menu starts folded.
    fn default() -> (p: DropdownMenuParent)
        ensures
            p == (DropdownMenuParent { unwrapped: false }),
    {
        DropdownMenuParent { unwrapped: false }
    }
}

impl Button {
    /// The texture name this button wants while hovered (or not), if any.
    pub open spec fn spec_texture_override(&self, inside: bool) -> Option<String> {
        if inside {
            self.hovered_over_texture_name
        } else {
            self.normal_texture_name
        }
    }

    /// The label text this button wants while hovered (or not), if any.
    pub open spec fn spec_text_override(&self, inside: bool) -> Option<String> {
        if inside {
            self.hovered_over_text
        } else {
            self.normal_text
        }
    }

    /// The tint this button wants while hovered (or not), if any.
    pub open spec fn spec_color_override(&self, inside: bool) -> Option<Rgba> {
        if inside {
            self.hovered_over_color
        } else {
            self.normal_color
        }
    }

    fn texture_override(&self, inside: bool) -> (r: Option<String>)
        ensures
            r == self.spec_texture_override(inside),
    {
        if inside {
            match &self.hovered_over_texture_name {
                Some(s) => Some(s.clone()),
                None => None,
            }
        } else {
            match &self.normal_texture_name {
                Some(s) => Some(s.clone()),
                None => None,
            }
        }
    }

    fn text_override(&self, inside: bool) -> (r: Option<String>)
        ensures
            r == self.spec_text_override(inside),
    {
        if inside {
            match &self.hovered_over_text {
                Some(s) => Some(s.clone()),
                None => None,
            }
        } else {
            match &self.normal_text {
                Some(s) => Some(s.clone()),
                None => None,
            }
        }
    }

    fn color_override(&self, inside: bool) -> (r: Option<Rgba>)
        ensures
            r == self.spec_color_override(inside),
    {
        if inside {
            self.hovered_over_color
        } else {
            self.normal_color
        }
    }
}

/// A child item of a dropdown menu. It is visible only while its parent is
/// unwrapped.
#[derive(Clone, Copy, Debug, PartialEq, Eq, Structural)]
pub struct DropdownMenuButton {
    /// The entity this item drops down from. It must resolve to a live
    /// entity carrying a DropdownMenuParent; a stale reference is reported,
    /// never dereferenced.
    pub parent: Entity,
    /// Index of the item within the menu, used for positioning.
    pub list_id: i32,
}

/// Hit-test: the point lies within the axis-aligned box anchored at `p`
/// with extent `r`, all four bounds inclusive.
pub open spec fn spec_in_rect(px: int, py: int, p: Position, r: Rectangle) -> bool {
    &&& px >= p.x
    &&& py >= p.y
    &&& px <= p.x + r.width
    &&& py <= p.y + r.height
}

/// Hit-test utility: whether the point falls within the rectangle anchored
/// at `pos`, bounds inclusive on all four sides.
pub fn point_in_rect(px: i32, py: i32, pos: &Position, rect: &Rectangle) -> (r: bool)
    ensures
        r == spec_in_rect(px as int, py as int, *pos, *rect),
{
    (px as i64) >= (pos.x as i64) && (py as i64) >= (pos.y as i64) && (px as i64) <= (pos.x as i64)
        + (rect.width as i64) && (py as i64) <= (pos.y as i64) + (rect.height as i64)
}

/// The entity at slot `i` carries the components the hover pass joins on.
pub open spec fn hover_bundle_at(w: World, i: int) -> bool {
    &&& w.positions@[i] is Some
    &&& w.rectangles@[i] is Some
    &&& w.buttons@[i] is Some
}

/// The pointer lies within slot `i`'s rectangle.
pub open spec fn pointer_inside_at(w: World, mx: int, my: int, i: int) -> bool {
    spec_in_rect(mx, my, w.positions@[i]->0, w.rectangles@[i]->0)
}

/// The sprite column entry of slot `i` after one hover pass: if the slot is
/// a hover bundle with a sprite and the button defines a texture override
/// for the current hover state, the sprite's texture name is replaced;
/// otherwise the entry keeps its value.
pub open spec fn hover_sprite_at(w: World, mx: int, my: int, i: int) -> Option<Sprite> {
    if hover_bundle_at(w, i) && w.sprites@[i] is Some {
        let s = w.sprites@[i]->0;
        let b = w.buttons@[i]->0;
        match b.spec_texture_override(pointer_inside_at(w, mx, my, i)) {
            Some(n) => Some(
                Sprite { name: n, source_rect: s.source_rect, size: s.size, visible: s.visible },
            ),
            None => Some(s),
        }
    } else {
        w.sprites@[i]
    }
}

/// The text column entry of slot `i` after one hover pass, by the same rule
/// as the sprite column, replacing the label text.
pub open spec fn hover_text_at(w: World, mx: int, my: int, i: int) -> Option<Text> {
    if hover_bundle_at(w, i) && w.texts@[i] is Some {
        let t = w.texts@[i]->0;
        let b = w.buttons@[i]->0;
        match b.spec_text_override(pointer_inside_at(w, mx, my, i)) {
            Some(n) => Some(Text { text: n, color: t.color, visible: t.visible, offset: t.offset }),
            None => Some(t),
        }
    } else {
        w.texts@[i]
    }
}

/// The color column entry of slot `i` after one hover pass, by the same
/// rule, replacing the tint.
pub open spec fn hover_color_at(w: World, mx: int, my: int, i: int) -> Option<Colored> {
    if hover_bundle_at(w, i) && w.colors@[i] is Some {
        let c = w.colors@[i]->0;
        let b = w.buttons@[i]->0;
        match b.spec_color_override(pointer_inside_at(w, mx, my, i)) {
            Some(n) => Some(Colored { color: n }),
            None => Some(c),
        }
    } else {
        w.colors@[i]
    }
}

/// The button hover pass. It runs every frame, click or not.
pub struct ButtonUpdateSystem;

impl ButtonUpdateSystem {
    /// For every entity carrying Position, Rectangle and Button, applies the
    /// button's hovered or normal visual overrides to whichever of Sprite,
    /// Text and Colored are attached; entities lacking an optional component
    /// are skipped for that field, and a button with no override for a field
    /// leaves the previous value.
    pub fn run(w: &mut World, mouse: &MouseData)
        requires
            old(w).wf(),
        ensures
            final(w).wf(),
            final(w).n() == old(w).n(),
            forall|j: int|
                0 <= j < old(w).n() ==> final(w).sprites@[j] == hover_sprite_at(
                    *old(w),
                    mouse.x as int,
                    mouse.y as int,
                    j,
                ),
            forall|j: int|
                0 <= j < old(w).n() ==> final(w).texts@[j] == hover_text_at(
                    *old(w),
                    mouse.x as int,
                    mouse.y as int,
                    j,
                ),
            forall|j: int|
                0 <= j < old(w).n() ==> final(w).colors@[j] == hover_color_at(
                    *old(w),
                    mouse.x as int,
                    mouse.y as int,
                    j,
                ),
            final(w).alive@ == old(w).alive@,
            final(w).generations@ == old(w).generations@,
            final(w).positions@ == old(w).positions@,
            final(w).rectangles@ == old(w).rectangles@,
            final(w).renderables@ == old(w).renderables@,
            final(w).buttons@ == old(w).buttons@,
            final(w).dropdown_parents@ == old(w).dropdown_parents@,
            final(w).dropdown_buttons@ == old(w).dropdown_buttons@,
            final(w).settings_values@ == old(w).settings_values@,
            final(w).settings_displays@ == old(w).settings_displays@,
            final(w).animations@ == old(w).animations@,
            final(w).menu_buttons@ == old(w).menu_buttons@,
            final(w).menu_related@ == old(w).menu_related@,
            final(w).response_texts@ == old(w).response_texts@,
    {
        let ghost w0 = *w;
        let ghost mx = mouse.x as int;
        let ghost my = mouse.y as int;
        let n = w.alive.len();
        for i in 0..n
            invariant
                w.wf(),
                n == w.n(),
                w0.wf(),
                n == w0.n(),
                mx == mouse.x as int,
                my == mouse.y as int,
                forall|j: int| 0 <= j < i ==> w.sprites@[j] == hover_sprite_at(w0, mx, my, j),
                forall|j: int| 0 <= j < i ==> w.texts@[j] == hover_text_at(w0, mx, my, j),
                forall|j: int| 0 <= j < i ==> w.colors@[j] == hover_color_at(w0, mx, my, j),
                forall|j: int| i <= j < n ==> w.sprites@[j] == w0.sprites@[j],
                forall|j: int| i <= j < n ==> w.texts@[j] == w0.texts@[j],
                forall|j: int| i <= j < n ==> w.colors@[j] == w0.colors@[j],
                w.alive@ == w0.alive@,
                w.generations@ == w0.generations@,
                w.positions@ == w0.positions@,
                w.rectangles@ == w0.rectangles@,
                w.renderables@ == w0.renderables@,
                w.buttons@ == w0.buttons@,
                w.dropdown_parents@ == w0.dropdown_parents@,
                w.dropdown_buttons@ == w0.dropdown_buttons@,
                w.settings_values@ == w0.settings_values@,
                w.settings_displays@ == w0.settings_displays@,
                w.animations@ == w0.animations@,
                w.menu_buttons@ == w0.menu_buttons@,
                w.menu_related@ == w0.menu_related@,
                w.response_texts@ == w0.response_texts@,
        {
            if w.buttons[i].is_some() && w.positions[i].is_some() && w.rectangles[i].is_some() {
                let p = w.positions[i].unwrap();
                let r = w.rectangles[i].unwrap();
                let inside = point_in_rect(mouse.x, mouse.y, &p, &r);
                let b = w.buttons[i].as_ref().unwrap();
                let tex_o = b.texture_override(inside);
                let text_o = b.text_override(inside);
                let col_o = b.color_override(inside);
                if w.sprites[i].is_some() {
                    if let Some(name) = tex_o {
                        let mut sp = w.sprites[i].take().unwrap();
                        sp.name = name;
                        w.sprites[i] = Some(sp);
                    }
                }
                if w.texts[i].is_some() {
                    if let Some(label) = text_o {
                        let mut tx = w.texts[i].take().unwrap();
                        tx.text = label;
                        w.texts[i] = Some(tx);
                    }
                }
                if w.colors[i].is_some() {
                    if let Some(tint) = col_o {
                        w.colors[i] = Some(Colored { color: tint });
                    }
                }
            }
            assert(w.sprites@[i as int] == hover_sprite_at(w0, mx, my, i as int));
            assert(w.texts@[i as int] == hover_text_at(w0, mx, my, i as int));
            assert(w.colors@[i as int] == hover_color_at(w0, mx, my, i as int));
        }
    }
}

/// The entity at slot `i` is a button of the given kind whose rectangle
/// contains the point.
pub open spec fn pressed_button_at(w: World, x: int, y: int, kind: ButtonKind, i: int) -> bool {
    &&& w.positions@[i] is Some
    &&& w.rectangles@[i] is Some
    &&& w.buttons@[i] is Some
    &&& w.buttons@[i]->0.kind == kind
    &&& spec_in_rect(x, y, w.positions@[i]->0, w.rectangles@[i]->0)
}

/// Returns a handle to the button of the given kind that contains the point
/// and sits at the lowest slot index, if any. Ties among overlapping buttons
/// are broken deterministically: the entity created earliest wins.
pub fn get_first_pressed_down_button(w: &World, x: i32, y: i32, kind: ButtonKind) -> (r: Option<
    Entity,
>)
    requires
        w.wf(),
    ensures
        match r {
            Some(e) => {
                &&& e.idx < w.n()
                &&& e.gen == w.generations@[e.idx as int]
                &&& pressed_button_at(*w, x as int, y as int, kind, e.idx as int)
                &&& forall|j: int|
                    0 <= j < e.idx ==> !pressed_button_at(*w, x as int, y as int, kind, j)
            },
            None => forall|j: int|
                0 <= j < w.n() ==> !pressed_button_at(*w, x as int, y as int, kind, j),
        },
{
    let n = w.alive.len();
    for i in 0..n
        invariant
            w.wf(),
            n == w.n(),
            forall|j: int| 0 <= j < i ==> !pressed_button_at(*w, x as int, y as int, kind, j),
    {
        if w.buttons[i].is_some() && w.positions[i].is_some() && w.rectangles[i].is_some() {
            let p = w.positions[i].unwrap();
            let r = w.rectangles[i].unwrap();
            if w.buttons[i].as_ref().unwrap().kind == kind && point_in_rect(x, y, &p, &r) {
                return Some(Entity { idx: i, gen: w.generations[i] });
            }
        }
    }
    None
}

/// The entity at slot `i` is a visible menu button of the given kind whose
/// rectangle contains the point.
pub open spec fn menu_press_at(w: World, x: int, y: int, kind: ButtonKind, i: int) -> bool {
    &&& w.menu_buttons@[i]
    &&& w.buttons@[i] is Some
    &&& w.buttons@[i]->0.kind == kind
    &&& w.positions@[i] is Some
    &&& w.rectangles@[i] is Some
    &&& w.renderables@[i] is Some
    &&& w.renderables@[i]->0.visible
    &&& spec_in_rect(x, y, w.positions@[i]->0, w.rectangles@[i]->0)
}

/// Whether some visible menu button of the given kind contains the point.
pub fn check_button_press(w: &World, x: i32, y: i32, kind: ButtonKind) -> (r: bool)
    requires
        w.wf(),
    ensures
        r == exists|i: int| 0 <= i < w.n() && menu_press_at(*w, x as int, y as int, kind, i),
{
    let n = w.alive.len();
    for i in 0..n
        invariant
            w.wf(),
            n == w.n(),
            forall|j: int| 0 <= j < i ==> !menu_press_at(*w, x as int, y as int, kind, j),
    {
        if w.menu_buttons[i] && w.buttons[i].is_some() && w.positions[i].is_some()
            && w.rectangles[i].is_some() && w.renderables[i].is_some() {
            let p = w.positions[i].unwrap();
            let r = w.rectangles[i].unwrap();
            if w.buttons[i].as_ref().unwrap().kind == kind && w.renderables[i].unwrap().visible
                && point_in_rect(x, y, &p, &r) {
                assert(menu_press_at(*w, x as int, y as int, kind, i as int));
                return true;
            }
        }
    }
    false
}

/// The entity at slot `i` carries the components the hover-feedback pass
/// joins on: Position, Rectangle, Colored and Button.
pub open spec fn feedback_bundle_at(w: World, i: int) -> bool {
    &&& w.positions@[i] is Some
    &&& w.rectangles@[i] is Some
    &&& w.colors@[i] is Some
    &&& w.buttons@[i] is Some
}

/// The button column entry of slot `i` after one hover-feedback pass: the
/// `hovered_over` flag mirrors whether the pointer is inside.
pub open spec fn feedback_button_at(w: World, x: int, y: int, i: int) -> Option<Button> {
    if feedback_bundle_at(w, i) {
        let b = w.buttons@[i]->0;
        Some(
            Button {
                hovered_over: pointer_inside_at(w, x, y, i),
                kind: b.kind,
                hovered_over_texture_name: b.hovered_over_texture_name,
                hovered_over_text: b.hovered_over_text,
                hovered_over_color: b.hovered_over_color,
                normal_texture_name: b.normal_texture_name,
                normal_text: b.normal_text,
                normal_color: b.normal_color,
            },
        )
    } else {
        w.buttons@[i]
    }
}

/// The color column entry of slot `i` after one hover-feedback pass: teal
/// while hovered, black otherwise, keeping the previous alpha.
pub open spec fn feedback_color_at(w: World, x: int, y: int, i: int) -> Option<Colored> {
    if feedback_bundle_at(w, i) {
        let c = w.colors@[i]->0;
        let v: u8 = if pointer_inside_at(w, x, y, i) {
            150u8
        } else {
            0u8
        };
        Some(Colored { color: Rgba { r: 0u8, g: v, b: v, a: c.color.a } })
    } else {
        w.colors@[i]
    }
}

/// Hover feedback: for every entity carrying Position, Rectangle, Colored
/// and Button, sets the button's `hovered_over` flag to whether the pointer
/// is inside its rectangle, and tints it teal while hovered and black
/// otherwise, keeping the alpha channel.
pub fn update_button_hover(w: &mut World, x: i32, y: i32)
    requires
        old(w).wf(),
    ensures
        final(w).wf(),
        final(w).n() == old(w).n(),
        forall|j: int|
            0 <= j < old(w).n() ==> final(w).buttons@[j] == feedback_button_at(
                *old(w),
                x as int,
                y as int,
                j,
            ),
        forall|j: int|
            0 <= j < old(w).n() ==> final(w).colors@[j] == feedback_color_at(
                *old(w),
                x as int,
                y as int,
                j,
            ),
        final(w).alive@ == old(w).alive@,
        final(w).generations@ == old(w).generations@,
        final(w).positions@ == old(w).positions@,
        final(w).rectangles@ == old(w).rectangles@,
        final(w).renderables@ == old(w).renderables@,
        final(w).sprites@ == old(w).sprites@,
        final(w).texts@ == old(w).texts@,
        final(w).dropdown_parents@ == old(w).dropdown_parents@,
        final(w).dropdown_buttons@ == old(w).dropdown_buttons@,
        final(w).settings_values@ == old(w).settings_values@,
        final(w).settings_displays@ == old(w).settings_displays@,
        final(w).animations@ == old(w).animations@,
        final(w).menu_buttons@ == old(w).menu_buttons@,
        final(w).menu_related@ == old(w).menu_related@,
        final(w).response_texts@ == old(w).response_texts@,
{
    let ghost w0 = *w;
    let n = w.alive.len();
    for i in 0..n
        invariant
            w.wf(),
            n == w.n(),
            w0.wf(),
            n == w0.n(),
            forall|j: int| 0 <= j < i ==> w.buttons@[j] == feedback_button_at(w0, x as int, y as int, j),
            forall|j: int| 0 <= j < i ==> w.colors@[j] == feedback_color_at(w0, x as int, y as int, j),
            forall|j: int| i <= j < n ==> w.buttons@[j] == w0.buttons@[j],
            forall|j: int| i <= j < n ==> w.colors@[j] == w0.colors@[j],
            w.alive@ == w0.alive@,
            w.generations@ == w0.generations@,
            w.positions@ == w0.positions@,
            w.rectangles@ == w0.rectangles@,
            w.renderables@ == w0.renderables@,
            w.sprites@ == w0.sprites@,
            w.texts@ == w0.texts@,
            w.dropdown_parents@ == w0.dropdown_parents@,
            w.dropdown_buttons@ == w0.dropdown_buttons@,
            w.settings_values@ == w0.settings_values@,
            w.settings_displays@ == w0.settings_displays@,
            w.animations@ == w0.animations@,
            w.menu_buttons@ == w0.menu_buttons@,
            w.menu_related@ == w0.menu_related@,
            w.response_texts@ == w0.response_texts@,
    {
        if w.buttons[i].is_some() && w.positions[i].is_some() && w.rectangles[i].is_some()
            && w.colors[i].is_some() {
            let p = w.positions[i].unwrap();
            let r = w.rectangles[i].unwrap();
            let inside = point_in_rect(x, y, &p, &r);
            let mut b = w.buttons[i].take().unwrap();
            b.hovered_over = inside;
            w.buttons[i] = Some(b);
            let a = w.colors[i].unwrap().color.a;
            let v: u8 = if inside {
                150
            } else {
                0
            };
            w.colors[i] = Some(Colored { color: Rgba { r: 0, g: v, b: v, a } });
        }
        assert(w.buttons@[i as int] == feedback_button_at(w0, x as int, y as int, i as int));
        assert(w.colors@[i as int] == feedback_color_at(w0, x as int, y as int, i as int));
    }
}

/// The text column entry of slot `i` after one response-text update: every
/// label marked as response text takes the new message and color.
pub open spec fn response_text_at(
    w: World,
    new_text: String,
    new_color: Rgba,
    i: int,
) -> Option<Text> {
    if w.texts@[i] is Some && w.response_texts@[i] {
        let t = w.texts@[i]->0;
        Some(Text { text: new_text, color: new_color, visible: t.visible, offset: t.offset })
    } else {
        w.texts@[i]
    }
}

/// Writes a message into every label entity marked as response text,
/// keeping each label's visibility and offset.
pub fn update_response_text(w: &mut World, new_text: String, new_color: Rgba)
    requires
        old(w).wf(),
    ensures
        final(w).wf(),
        final(w).n() == old(w).n(),
        forall|j: int|
            0 <= j < old(w).n() ==> final(w).texts@[j] == response_text_at(
                *old(w),
                new_text,
                new_color,
                j,
            ),
        final(w).alive@ == old(w).alive@,
        final(w).generations@ == old(w).generations@,
        final(w).positions@ == old(w).positions@,
        final(w).rectangles@ == old(w).rectangles@,
        final(w).renderables@ == old(w).renderables@,
        final(w).sprites@ == old(w).sprites@,
        final(w).colors@ == old(w).colors@,
        final(w).buttons@ == old(w).buttons@,
        final(w).dropdown_parents@ == old(w).dropdown_parents@,
        final(w).dropdown_buttons@ == old(w).dropdown_buttons@,
        final(w).settings_values@ == old(w).settings_values@,
        final(w).settings_displays@ == old(w).settings_displays@,
        final(w).animations@ == old(w).animations@,
        final(w).menu_buttons@ == old(w).menu_buttons@,
        final(w).menu_related@ == old(w).menu_related@,
        final(w).response_texts@ == old(w).response_texts@,
{
    let ghost w0 = *w;
    let n = w.alive.len();
    for i in 0..n
        invariant
            w.wf(),
            n == w.n(),
            w0.wf(),
            n == w0.n(),
            forall|j: int| 0 <= j < i ==> w.texts@[j] == response_text_at(w0, new_text, new_color, j),
            forall|j: int| i <= j < n ==> w.texts@[j] == w0.texts@[j],
            w.alive@ == w0.alive@,
            w.generations@ == w0.generations@,
            w.positions@ == w0.positions@,
            w.rectangles@ == w0.rectangles@,
            w.renderables@ == w0.renderables@,
            w.sprites@ == w0.sprites@,
            w.colors@ == w0.colors@,
            w.buttons@ == w0.buttons@,
            w.dropdown_parents@ == w0.dropdown_parents@,
            w.dropdown_buttons@ == w0.dropdown_buttons@,
            w.settings_values@ == w0.settings_values@,
            w.settings_displays@ == w0.settings_displays@,
            w.animations@ == w0.animations@,
            w.menu_buttons@ == w0.menu_buttons@,
            w.menu_related@ == w0.menu_related@,
            w.response_texts@ == w0.response_texts@,
    {
        if w.texts[i].is_some() && w.response_texts[i] {
            let mut t = w.texts[i].take().unwrap();
            t.text = new_text.clone();
            t.color = new_color;
            w.texts[i] = Some(t);
        }
        assert(w.texts@[i as int] == response_text_at(w0, new_text, new_color, i as int));
    }
}

} // verus!
