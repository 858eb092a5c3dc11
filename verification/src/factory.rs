use vstd::prelude::*;
use crate::color::Rgba;
use crate::components::{
    AnimationData, Colored, Position, Rectangle, Renderable, SettingsValue, Text, Vec2i,
};
use crate::game::RenderLayers;
use crate::settings::{spec_find_table, LabelEntry, NameTable, SettingsInfo};
use crate::store::{Entity, World};
use crate::ui::{Button, ButtonKind, DropdownMenuButton, DropdownMenuParent};

verus! {

/// A button of the given kind with no visual overrides, not hovered.
pub open spec fn spec_button_of(kind: ButtonKind) -> Button {
    Button {
        hovered_over: false,
        kind,
        hovered_over_texture_name: None,
        hovered_over_text: None,
        hovered_over_color: None,
        normal_texture_name: None,
        normal_text: None,
        normal_color: None,
    }
}

fn button_of(kind: ButtonKind) -> (b: Button)
    ensures
        b == spec_button_of(kind),
{
    let mut b = Button::default();
    b.kind = kind;
    b
}

/// Creates the base of a drawable button: a fresh entity carrying Position,
/// Rectangle, a plain Button, Colored and a visible Renderable on the given
/// layer — everything the hover and hit-test passes join on.
pub fn make_button_base(
    w: &mut World,
    location: Vec2i,
    size: Vec2i,
    color: Rgba,
    layer: RenderLayers,
) -> (e: Entity)
    requires
        old(w).wf(),
    ensures
        final(w).wf(),
        final(w).n() == old(w).n() + 1,
        e.idx == old(w).n(),
        e.gen == 0u64,
        final(w).live(e),
        final(w).alive@ == old(w).alive@.push(true),
        final(w).generations@ == old(w).generations@.push(0u64),
        final(w).positions@ == old(w).positions@.push(
            Some(Position { x: location.x, y: location.y }),
        ),
        final(w).rectangles@ == old(w).rectangles@.push(
            Some(Rectangle { width: size.x, height: size.y }),
        ),
        final(w).buttons@ == old(w).buttons@.push(Some(spec_button_of(ButtonKind::Plain))),
        final(w).colors@ == old(w).colors@.push(Some(Colored { color })),
        final(w).renderables@ == old(w).renderables@.push(
            Some(Renderable { visible: true, layer: layer.spec_mask() }),
        ),
        final(w).sprites@ == old(w).sprites@.push(None),
        final(w).texts@ == old(w).texts@.push(None),
        final(w).dropdown_parents@ == old(w).dropdown_parents@.push(None),
        final(w).dropdown_buttons@ == old(w).dropdown_buttons@.push(None),
        final(w).settings_values@ == old(w).settings_values@.push(None),
        final(w).settings_displays@ == old(w).settings_displays@.push(None),
        final(w).animations@ == old(w).animations@.push(None),
        final(w).menu_buttons@ == old(w).menu_buttons@.push(false),
        final(w).menu_related@ == old(w).menu_related@.push(false),
        final(w).response_texts@ == old(w).response_texts@.push(false),
{
    let ghost w0 = *w;
    let e = w.create_entity();
    w.positions[e.idx] = Some(Position { x: location.x, y: location.y });
    w.rectangles[e.idx] = Some(Rectangle { width: size.x, height: size.y });
    w.buttons[e.idx] = Some(button_of(ButtonKind::Plain));
    w.colors[e.idx] = Some(Colored { color });
    w.renderables[e.idx] = Some(Renderable { visible: true, layer: layer.mask() });
    proof {
        assert(w.positions@ =~= w0.positions@.push(
            Some(Position { x: location.x, y: location.y }),
        ));
        assert(w.rectangles@ =~= w0.rectangles@.push(
            Some(Rectangle { width: size.x, height: size.y }),
        ));
        assert(w.buttons@ =~= w0.buttons@.push(Some(spec_button_of(ButtonKind::Plain))));
        assert(w.colors@ =~= w0.colors@.push(Some(Colored { color })));
        assert(w.renderables@ =~= w0.renderables@.push(
            Some(Renderable { visible: true, layer: layer.spec_mask() }),
        ));
    }
    e
}

/// Creates a menu button of the given kind: the full bundle the menu passes
/// expect, including its label, its menu markers, and a slide-in animation
/// from 500 pixels left of its resting place. A dropdown-parent kind also
/// attaches a folded DropdownMenuParent.
pub fn create_button(
    location: Vec2i,
    size: Vec2i,
    color: Rgba,
    text: String,
    w: &mut World,
    kind: ButtonKind,
) -> (e: Entity)
    requires
        old(w).wf(),
        location.x >= i32::MIN + 500,
    ensures
        final(w).wf(),
        final(w).n() == old(w).n() + 1,
        e.idx == old(w).n(),
        e.gen == 0u64,
        final(w).live(e),
        final(w).alive@ == old(w).alive@.push(true),
        final(w).generations@ == old(w).generations@.push(0u64),
        final(w).positions@ == old(w).positions@.push(
            Some(Position { x: (location.x - 500) as i32, y: location.y }),
        ),
        final(w).texts@ == old(w).texts@.push(
            Some(
                Text {
                    text,
                    color: Rgba { r: 255u8, g: 255u8, b: 255u8, a: 255u8 },
                    visible: true,
                    offset: Vec2i { x: 25, y: 25 },
                },
            ),
        ),
        final(w).rectangles@ == old(w).rectangles@.push(
            Some(Rectangle { width: size.x, height: size.y }),
        ),
        final(w).menu_buttons@ == old(w).menu_buttons@.push(true),
        final(w).buttons@ == old(w).buttons@.push(Some(spec_button_of(kind))),
        final(w).colors@ == old(w).colors@.push(Some(Colored { color })),
        final(w).dropdown_parents@ == old(w).dropdown_parents@.push(
            if kind is DropdownParent {
                Some(DropdownMenuParent { unwrapped: false })
            } else {
                None
            },
        ),
        final(w).menu_related@ == old(w).menu_related@.push(true),
        final(w).renderables@ == old(w).renderables@.push(
            Some(Renderable { visible: true, layer: RenderLayers::Menu.spec_mask() }),
        ),
        final(w).animations@ == old(w).animations@.push(
            Some(
                AnimationData {
                    finished: true,
                    end_location: location,
                    start_location: Vec2i { x: (location.x - 500) as i32, y: location.y },
                    direction: Vec2i { x: 0, y: 0 },
                    animation_speed_modifier: 2,
                },
            ),
        ),
        final(w).sprites@ == old(w).sprites@.push(None),
        final(w).dropdown_buttons@ == old(w).dropdown_buttons@.push(None),
        final(w).settings_values@ == old(w).settings_values@.push(None),
        final(w).settings_displays@ == old(w).settings_displays@.push(None),
        final(w).response_texts@ == old(w).response_texts@.push(false),
{
    let ghost w0 = *w;
    let e = w.create_entity();
    let slid_x = location.x - 500;
    w.positions[e.idx] = Some(Position { x: slid_x, y: location.y });
    let ghost text_v = text;
    w.texts[e.idx] = Some(
        Text {
            text,
            color: Rgba { r: 255, g: 255, b: 255, a: 255 },
            visible: true,
            offset: Vec2i { x: 25, y: 25 },
        },
    );
    w.rectangles[e.idx] = Some(Rectangle { width: size.x, height: size.y });
    w.menu_buttons[e.idx] = true;
    w.buttons[e.idx] = Some(button_of(kind));
    w.colors[e.idx] = Some(Colored { color });
    if matches!(kind, ButtonKind::DropdownParent) {
        w.dropdown_parents[e.idx] = Some(DropdownMenuParent { unwrapped: false });
    }
    w.menu_related[e.idx] = true;
    w.renderables[e.idx] = Some(
        Renderable { visible: true, layer: RenderLayers::Menu.mask() },
    );
    w.animations[e.idx] = Some(
        AnimationData {
            finished: true,
            end_location: location,
            start_location: Vec2i { x: slid_x, y: location.y },
            direction: Vec2i { x: 0, y: 0 },
            animation_speed_modifier: 2,
        },
    );
    proof {
        assert(w.positions@ =~= w0.positions@.push(
            Some(Position { x: (location.x - 500) as i32, y: location.y }),
        ));
        assert(w.texts@ =~= w0.texts@.push(
            Some(
                Text {
                    text: text_v,
                    color: Rgba { r: 255u8, g: 255u8, b: 255u8, a: 255u8 },
                    visible: true,
                    offset: Vec2i { x: 25, y: 25 },
                },
            ),
        ));
        assert(w.rectangles@ =~= w0.rectangles@.push(
            Some(Rectangle { width: size.x, height: size.y }),
        ));
        assert(w.menu_buttons@ =~= w0.menu_buttons@.push(true));
        assert(w.buttons@ =~= w0.buttons@.push(Some(spec_button_of(kind))));
        assert(w.colors@ =~= w0.colors@.push(Some(Colored { color })));
        assert(w.dropdown_parents@ =~= w0.dropdown_parents@.push(
            if kind is DropdownParent {
                Some(DropdownMenuParent { unwrapped: false })
            } else {
                None
            },
        ));
        assert(w.menu_related@ =~= w0.menu_related@.push(true));
        assert(w.renderables@ =~= w0.renderables@.push(
            Some(Renderable { visible: true, layer: RenderLayers::Menu.spec_mask() }),
        ));
        assert(w.animations@ =~= w0.animations@.push(
            Some(
                AnimationData {
                    finished: true,
                    end_location: location,
                    start_location: Vec2i { x: (location.x - 500) as i32, y: location.y },
                    direction: Vec2i { x: 0, y: 0 },
                    animation_speed_modifier: 2,
                },
            ),
        ));
    }
    e
}

/// Creates one dropdown option entity: a hidden child of `parent` carrying
/// the setting it writes when clicked, its label, and the full hit-test
/// bundle. It becomes visible when its parent menu unfolds.
#[allow(unused_variables)]
pub fn create_drop_down_item(
    location: Vec2i,
    size: Vec2i,
    color: Rgba,
    setting_value: i32,
    w: &mut World,
    text: String,
    setting_name: String,
    parent: Entity,
) -> (e: Entity)
    requires
        old(w).wf(),
    ensures
        final(w).wf(),
        final(w).n() == old(w).n() + 1,
        e.idx == old(w).n(),
        e.gen == 0u64,
        final(w).live(e),
        final(w).alive@ == old(w).alive@.push(true),
        final(w).generations@ == old(w).generations@.push(0u64),
        final(w).positions@ == old(w).positions@.push(
            Some(Position { x: location.x, y: location.y }),
        ),
        final(w).texts@ == old(w).texts@.push(
            Some(
                Text {
                    text,
                    color: Rgba { r: 255u8, g: 255u8, b: 255u8, a: 255u8 },
                    visible: true,
                    offset: Vec2i { x: 25, y: 0 },
                },
            ),
        ),
        final(w).renderables@ == old(w).renderables@.push(
            Some(Renderable { visible: false, layer: RenderLayers::Menu.spec_mask() }),
        ),
        final(w).rectangles@ == old(w).rectangles@.push(
            Some(Rectangle { width: size.x, height: size.y }),
        ),
        final(w).dropdown_buttons@ == old(w).dropdown_buttons@.push(
            Some(DropdownMenuButton { parent, list_id: 0 }),
        ),
        final(w).menu_related@ == old(w).menu_related@.push(true),
        final(w).settings_values@ == old(w).settings_values@.push(
            Some(SettingsValue { name: setting_name, value: setting_value }),
        ),
        final(w).buttons@ == old(w).buttons@.push(Some(spec_button_of(ButtonKind::Plain))),
        final(w).colors@ == old(w).colors@.push(
            Some(Colored { color: Rgba { r: 0u8, g: 0u8, b: 0u8, a: 150u8 } }),
        ),
        final(w).sprites@ == old(w).sprites@.push(None),
        final(w).dropdown_parents@ == old(w).dropdown_parents@.push(None),
        final(w).settings_displays@ == old(w).settings_displays@.push(None),
        final(w).animations@ == old(w).animations@.push(None),
        final(w).menu_buttons@ == old(w).menu_buttons@.push(false),
        final(w).response_texts@ == old(w).response_texts@.push(false),
{
    let ghost w0 = *w;
    let e = w.create_entity();
    w.positions[e.idx] = Some(Position { x: location.x, y: location.y });
    let ghost text_v = text;
    w.texts[e.idx] = Some(
        Text {
            text,
            color: Rgba { r: 255, g: 255, b: 255, a: 255 },
            visible: true,
            offset: Vec2i { x: 25, y: 0 },
        },
    );
    w.renderables[e.idx] = Some(
        Renderable { visible: false, layer: RenderLayers::Menu.mask() },
    );
    w.rectangles[e.idx] = Some(Rectangle { width: size.x, height: size.y });
    w.dropdown_buttons[e.idx] = Some(DropdownMenuButton { parent, list_id: 0 });
    w.menu_related[e.idx] = true;
    let ghost setting_name_v = setting_name;
    w.settings_values[e.idx] = Some(SettingsValue { name: setting_name, value: setting_value });
    w.buttons[e.idx] = Some(button_of(ButtonKind::Plain));
    w.colors[e.idx] = Some(Colored { color: Rgba { r: 0, g: 0, b: 0, a: 150 } });
    proof {
        assert(w.positions@ =~= w0.positions@.push(
            Some(Position { x: location.x, y: location.y }),
        ));
        assert(w.texts@ =~= w0.texts@.push(
            Some(
                Text {
                    text: text_v,
                    color: Rgba { r: 255u8, g: 255u8, b: 255u8, a: 255u8 },
                    visible: true,
                    offset: Vec2i { x: 25, y: 0 },
                },
            ),
        ));
        assert(w.renderables@ =~= w0.renderables@.push(
            Some(Renderable { visible: false, layer: RenderLayers::Menu.spec_mask() }),
        ));
        assert(w.rectangles@ =~= w0.rectangles@.push(
            Some(Rectangle { width: size.x, height: size.y }),
        ));
        assert(w.dropdown_buttons@ =~= w0.dropdown_buttons@.push(
            Some(DropdownMenuButton { parent, list_id: 0 }),
        ));
        assert(w.menu_related@ =~= w0.menu_related@.push(true));
        assert(w.settings_values@ =~= w0.settings_values@.push(
            Some(SettingsValue { name: setting_name_v, value: setting_value }),
        ));
        assert(w.buttons@ =~= w0.buttons@.push(Some(spec_button_of(ButtonKind::Plain))));
        assert(w.colors@ =~= w0.colors@.push(
            Some(Colored { color: Rgba { r: 0u8, g: 0u8, b: 0u8, a: 150u8 } }),
        ));
    }
    e
}

/// The entity at slot `idx` is one dropdown option as the factory lays them
/// out: hidden until its parent unfolds, writing `setting_name` when
/// clicked, labelled and valued by the label entry `e`.
pub open spec fn option_item_at(
    w: World,
    idx: int,
    y: int,
    parent: Entity,
    setting_name: Seq<char>,
    e: LabelEntry,
) -> bool {
    &&& w.alive@[idx]
    &&& w.positions@[idx] == Some(Position { x: 500, y: y as i32 })
    &&& w.texts@[idx] is Some
    &&& w.texts@[idx]->0.text == e.label
    &&& w.texts@[idx]->0.visible
    &&& w.renderables@[idx] == Some(
        Renderable { visible: false, layer: RenderLayers::Menu.spec_mask() },
    )
    &&& w.rectangles@[idx] == Some(Rectangle { width: 200, height: 25 })
    &&& w.dropdown_buttons@[idx] == Some(DropdownMenuButton { parent, list_id: 0 })
    &&& w.settings_values@[idx] is Some
    &&& w.settings_values@[idx]->0.name@ == setting_name
    &&& w.settings_values@[idx]->0.value == e.value
    &&& w.buttons@[idx] == Some(spec_button_of(ButtonKind::Plain))
    &&& w.colors@[idx] == Some(Colored { color: Rgba { r: 0u8, g: 0u8, b: 0u8, a: 150u8 } })
    &&& w.menu_related@[idx]
}

/// Creates one dropdown option per label entry, stacked 25 pixels apart
/// under the given vertical offset, all children of `parent` and all writing
/// the same named setting.
pub fn make_settings_option_list(
    w: &mut World,
    values: &Vec<LabelEntry>,
    y_offset: i32,
    parent: Entity,
    setting_name: String,
)
    requires
        old(w).wf(),
        -100000 <= y_offset <= 100000,
        values@.len() <= 100000,
    ensures
        final(w).wf(),
        final(w).n() == old(w).n() + values@.len(),
        old(w).preserved_in(*final(w)),
        forall|k: int|
            0 <= k < values@.len() ==> option_item_at(
                *final(w),
                old(w).n() + k,
                50 + y_offset + k * 25,
                parent,
                setting_name@,
                values@[k],
            ),
{
    let ghost w0 = *w;
    let n = values.len();
    for i in 0..n
        invariant
            w.wf(),
            w0.wf(),
            -100000 <= y_offset <= 100000,
            n == values@.len(),
            n <= 100000,
            w.n() == w0.n() + i,
            w0.preserved_in(*w),
            forall|k: int|
                0 <= k < i ==> option_item_at(
                    *w,
                    w0.n() + k,
                    50 + y_offset + k * 25,
                    parent,
                    setting_name@,
                    values@[k],
                ),
    {
        let y = 50i64 + (y_offset as i64) + (i as i64) * 25;
        let ghost w_pre = *w;
        create_drop_down_item(
            Vec2i { x: 500, y: y as i32 },
            Vec2i { x: 200, y: 25 },
            Rgba { r: 0, g: 0, b: 0, a: 150 },
            values[i].value,
            w,
            values[i].label.clone(),
            setting_name.clone(),
            parent,
        );
        proof {
            assert(option_item_at(
                *w,
                w0.n() + i,
                50 + y_offset + (i as int) * 25,
                parent,
                setting_name@,
                values@[i as int],
            ));
            assert forall|k: int| 0 <= k < i implies option_item_at(
                *w,
                w0.n() + k,
                50 + y_offset + k * 25,
                parent,
                setting_name@,
                values@[k],
            ) by {
                assert(option_item_at(
                    w_pre,
                    w0.n() + k,
                    50 + y_offset + k * 25,
                    parent,
                    setting_name@,
                    values@[k],
                ));
            }
        }
    }
}

/// The entity at slot `idx` is one main-menu action button as the factory
/// lays them out: resting at height `y`, slid 500 pixels left of x = 50,
/// 200 by 50, dark translucent, visible on the menu layer, carrying both
/// menu markers, its slide-in animation, and a white visible label — the
/// full bundle the hover, hit-test and draw passes expect.
pub open spec fn menu_button_at(w: World, idx: int, y: int) -> bool {
    &&& w.alive@[idx]
    &&& w.positions@[idx] == Some(Position { x: -450i32, y: y as i32 })
    &&& w.rectangles@[idx] == Some(Rectangle { width: 200, height: 50 })
    &&& w.colors@[idx] == Some(Colored { color: Rgba { r: 0u8, g: 0u8, b: 0u8, a: 150u8 } })
    &&& w.renderables@[idx] == Some(
        Renderable { visible: true, layer: RenderLayers::Menu.spec_mask() },
    )
    &&& w.menu_buttons@[idx]
    &&& w.menu_related@[idx]
    &&& w.animations@[idx] == Some(
        AnimationData {
            finished: true,
            end_location: Vec2i { x: 50, y: y as i32 },
            start_location: Vec2i { x: -450i32, y: y as i32 },
            direction: Vec2i { x: 0, y: 0 },
            animation_speed_modifier: 2,
        },
    )
    &&& w.texts@[idx] is Some
    &&& w.texts@[idx]->0.color == (Rgba { r: 255u8, g: 255u8, b: 255u8, a: 255u8 })
    &&& w.texts@[idx]->0.visible
    &&& w.texts@[idx]->0.offset == (Vec2i { x: 25, y: 25 })
    &&& w.dropdown_parents@[idx] is None
    &&& w.dropdown_buttons@[idx] is None
    &&& w.settings_values@[idx] is None
    &&& w.settings_displays@[idx] is None
    &&& w.sprites@[idx] is None
    &&& !w.response_texts@[idx]
}

/// Builds the main menu: the continue, save, load and exit buttons, stacked
/// 50 pixels apart, each with its label.
pub fn generate_menu(w: &mut World) -> (r: Vec<Entity>)
    requires
        old(w).wf(),
    ensures
        final(w).wf(),
        final(w).n() == old(w).n() + 4,
        old(w).preserved_in(*final(w)),
        r@.len() == 4,
        forall|k: int|
            0 <= k < 4 ==> (#[trigger] r@[k]).idx == old(w).n() + k && r@[k].gen == 0u64
                && final(w).live(r@[k]),
        menu_button_at(*final(w), old(w).n() as int, 50),
        menu_button_at(*final(w), old(w).n() as int + 1, 100),
        menu_button_at(*final(w), old(w).n() as int + 2, 150),
        menu_button_at(*final(w), old(w).n() as int + 3, 200),
        final(w).buttons@[old(w).n() as int] == Some(spec_button_of(ButtonKind::Continue)),
        final(w).buttons@[old(w).n() as int + 1] == Some(spec_button_of(ButtonKind::Save)),
        final(w).buttons@[old(w).n() as int + 2] == Some(spec_button_of(ButtonKind::Load)),
        final(w).buttons@[old(w).n() as int + 3] == Some(spec_button_of(ButtonKind::Exit)),
        forall|k: int| 0 <= k < 4 ==> (#[trigger] final(w).texts@[old(w).n() + k]) is Some,
        final(w).texts@[old(w).n() as int]->0.text@ == "Continue"@,
        final(w).texts@[old(w).n() as int + 1]->0.text@ == "Save"@,
        final(w).texts@[old(w).n() as int + 2]->0.text@ == "Load"@,
        final(w).texts@[old(w).n() as int + 3]->0.text@ == "Exit"@,
{
    let dark = Rgba { r: 0, g: 0, b: 0, a: 150 };
    let mut r: Vec<Entity> = Vec::new();
    let e0 = create_button(
        Vec2i { x: 50, y: 50 },
        Vec2i { x: 200, y: 50 },
        dark,
        "Continue".to_owned(),
        w,
        ButtonKind::Continue,
    );
    r.push(e0);
    let e1 = create_button(
        Vec2i { x: 50, y: 100 },
        Vec2i { x: 200, y: 50 },
        dark,
        "Save".to_owned(),
        w,
        ButtonKind::Save,
    );
    r.push(e1);
    let e2 = create_button(
        Vec2i { x: 50, y: 150 },
        Vec2i { x: 200, y: 50 },
        dark,
        "Load".to_owned(),
        w,
        ButtonKind::Load,
    );
    r.push(e2);
    let e3 = create_button(
        Vec2i { x: 50, y: 200 },
        Vec2i { x: 200, y: 50 },
        dark,
        "Exit".to_owned(),
        w,
        ButtonKind::Exit,
    );
    r.push(e3);
    r
}

/// The entity at slot `idx` is the header button of one dropdown menu, as
/// the settings screen lays them out.
pub open spec fn dropdown_parent_at(w: World, idx: int, y: int, label: Seq<char>) -> bool {
    &&& w.alive@[idx]
    &&& w.positions@[idx] == Some(Position { x: -200i32, y: y as i32 })
    &&& w.rectangles@[idx] == Some(Rectangle { width: 200, height: 50 })
    &&& w.buttons@[idx] == Some(spec_button_of(ButtonKind::DropdownParent))
    &&& w.dropdown_parents@[idx] == Some(DropdownMenuParent { unwrapped: false })
    &&& w.texts@[idx] is Some
    &&& w.texts@[idx]->0.text@ == label
    &&& w.renderables@[idx] == Some(
        Renderable { visible: true, layer: RenderLayers::Menu.spec_mask() },
    )
}

/// Builds the settings screen: a dropdown menu per setting — animation
/// speed, resolution, fullscreen — each header followed by one option per
/// label the metadata holds for that setting. Fails, creating nothing, when
/// the metadata lacks a table for one of the three settings.
pub fn generate_settings_menu(w: &mut World, info: &SettingsInfo) -> (r: Result<
    Vec<Entity>,
    String,
>)
    requires
        old(w).wf(),
        forall|i: int| 0 <= i < info.names@.len() ==> (#[trigger] info.names@[i]).labels@.len()
            <= 100000,
    ensures
        r is Ok <==> {
            &&& spec_find_table(info.names@, "animation_speed"@) is Some
            &&& spec_find_table(info.names@, "resolution"@) is Some
            &&& spec_find_table(info.names@, "fullscreen_type"@) is Some
        },
        r is Err ==> *final(w) == *old(w),
        r is Ok ==> {
            let n0 = old(w).n() as int;
            let l0 = spec_find_table(info.names@, "animation_speed"@)->0.labels@;
            let l1 = spec_find_table(info.names@, "resolution"@)->0.labels@;
            let l2 = spec_find_table(info.names@, "fullscreen_type"@)->0.labels@;
            let parents = r->Ok_0;
            &&& final(w).wf()
            &&& old(w).preserved_in(*final(w))
            &&& final(w).n() == old(w).n() + 3 + l0.len() + l1.len() + l2.len()
            &&& parents@.len() == 3
            &&& forall|k: int|
                0 <= k < 3 ==> (#[trigger] parents@[k]).idx == n0 + k && parents@[k].gen == 0u64
                    && final(w).live(parents@[k])
            &&& dropdown_parent_at(*final(w), n0, 50, "Animation speed"@)
            &&& dropdown_parent_at(*final(w), n0 + 1, 100, "Resolution"@)
            &&& dropdown_parent_at(*final(w), n0 + 2, 150, "Fullscreen"@)
            &&& forall|k: int|
                0 <= k < l0.len() ==> option_item_at(
                    *final(w),
                    n0 + 3 + k,
                    100 + k * 25,
                    parents@[0],
                    "animation_speed"@,
                    l0[k],
                )
            &&& forall|k: int|
                0 <= k < l1.len() ==> option_item_at(
                    *final(w),
                    n0 + 3 + l0.len() + k,
                    150 + k * 25,
                    parents@[1],
                    "resolution"@,
                    l1[k],
                )
            &&& forall|k: int|
                0 <= k < l2.len() ==> option_item_at(
                    *final(w),
                    n0 + 3 + l0.len() + l1.len() + k,
                    200 + k * 25,
                    parents@[2],
                    "fullscreen_type"@,
                    l2[k],
                )
        },
{
    let anim_name = "animation_speed".to_owned();
    let res_name = "resolution".to_owned();
    let fs_name = "fullscreen_type".to_owned();
    if info.find_table(&anim_name).is_none() || info.find_table(&res_name).is_none()
        || info.find_table(&fs_name).is_none() {
        return Err("settings metadata is missing a table for a settings menu".to_owned());
    }
    let dark = Rgba { r: 0, g: 0, b: 0, a: 150 };
    let mut parents: Vec<Entity> = Vec::new();
    let p0 = create_button(
        Vec2i { x: 300, y: 50 },
        Vec2i { x: 200, y: 50 },
        dark,
        "Animation speed".to_owned(),
        w,
        ButtonKind::DropdownParent,
    );
    parents.push(p0);
    let p1 = create_button(
        Vec2i { x: 300, y: 100 },
        Vec2i { x: 200, y: 50 },
        dark,
        "Resolution".to_owned(),
        w,
        ButtonKind::DropdownParent,
    );
    parents.push(p1);
    let p2 = create_button(
        Vec2i { x: 300, y: 150 },
        Vec2i { x: 200, y: 50 },
        dark,
        "Fullscreen".to_owned(),
        w,
        ButtonKind::DropdownParent,
    );
    parents.push(p2);
    let ghost w3 = *w;
    match info.find_table(&anim_name) {
        Some(t) => {
            proof {
                crate::settings::lemma_find_table_member(info.names@, anim_name@);
            }
            make_settings_option_list(w, &t.labels, 50, p0, anim_name);
        },
        None => {
            return Err("settings metadata is missing a table for a settings menu".to_owned());
        },
    }
    let ghost w4 = *w;
    match info.find_table(&res_name) {
        Some(t) => {
            proof {
                crate::settings::lemma_find_table_member(info.names@, res_name@);
            }
            make_settings_option_list(w, &t.labels, 100, p1, res_name);
        },
        None => {
            return Err("settings metadata is missing a table for a settings menu".to_owned());
        },
    }
    let ghost w5 = *w;
    match info.find_table(&fs_name) {
        Some(t) => {
            proof {
                crate::settings::lemma_find_table_member(info.names@, fs_name@);
            }
            make_settings_option_list(w, &t.labels, 150, p2, fs_name);
        },
        None => {
            return Err("settings metadata is missing a table for a settings menu".to_owned());
        },
    }
    Ok(parents)
}

} // verus!
