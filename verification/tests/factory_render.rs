use ui_core::color::Rgba;
use ui_core::components::{Position, Rectangle, Renderable, Sprite, Text, Vec2i, Vec2u};
use ui_core::factory::{
    create_button, create_drop_down_item, generate_menu, generate_settings_menu, make_button_base,
    make_settings_option_list,
};
use ui_core::game::{draw_eligible, Game, RenderLayers};
use ui_core::render::{fill_draws, rect_draws, text_draws, texture_draws};
use ui_core::settings::{LabelEntry, NameTable, SettingsInfo};
use ui_core::store::World;
use ui_core::ui::{ButtonKind, DropdownMenuParent};

#[test]
fn layer_filter_gates_drawing() {
    let visible = Renderable {
        visible: true,
        layer: 2,
    };
    let hidden = Renderable {
        visible: false,
        layer: 2,
    };
    // with an empty mask nothing draws, whatever the visibility
    assert!(!draw_eligible(&visible, 0));
    assert!(!draw_eligible(&hidden, 0));
    // with the layer bit active, a visible entity draws
    assert!(draw_eligible(&visible, 2));
    assert!(draw_eligible(&visible, 0xffff_ffff));
    // visible == false suppresses unconditionally
    assert!(!draw_eligible(&hidden, 0xffff_ffff));
    // a mask without the entity's bit suppresses too
    assert!(!draw_eligible(&visible, 1));
}

#[test]
fn game_layer_mask_operations() {
    let mut g = Game::new();
    assert_eq!(g.active_layers, 0xffff_ffff);
    g.hide_layer(RenderLayers::Menu);
    assert_eq!(g.active_layers & 2, 0);
    assert_ne!(g.active_layers & 1, 0);
    g.show_layer(RenderLayers::Menu);
    assert_ne!(g.active_layers & 2, 0);
    g.hide_layer(RenderLayers::Game);
    assert_eq!(g.active_layers & 1, 0);
}

#[test]
fn draw_selection_respects_flags_and_order() {
    let mut w = World::new();
    // a drawable sprite entity
    let a = w.create_entity();
    w.positions[a.idx] = Some(Position { x: 1, y: 2 });
    w.sprites[a.idx] = Some(Sprite {
        name: "tree".to_owned(),
        source_rect: None,
        size: Vec2u { x: 32, y: 48 },
        visible: true,
    });
    w.renderables[a.idx] = Some(Renderable {
        visible: true,
        layer: 1,
    });
    // same, but the sprite itself is hidden
    let b = w.create_entity();
    w.positions[b.idx] = Some(Position { x: 5, y: 6 });
    w.sprites[b.idx] = Some(Sprite {
        name: "rock".to_owned(),
        source_rect: None,
        size: Vec2u { x: 8, y: 8 },
        visible: false,
    });
    w.renderables[b.idx] = Some(Renderable {
        visible: true,
        layer: 1,
    });
    // a second drawable, to observe slot order
    let c = w.create_entity();
    w.positions[c.idx] = Some(Position { x: 9, y: 9 });
    w.sprites[c.idx] = Some(Sprite {
        name: "bush".to_owned(),
        source_rect: None,
        size: Vec2u { x: 4, y: 4 },
        visible: true,
    });
    w.renderables[c.idx] = Some(Renderable {
        visible: true,
        layer: 1,
    });

    let game = Game::new();
    let draws = texture_draws(&w, &game);
    assert_eq!(draws.len(), 2);
    assert_eq!(draws[0].name, "tree");
    assert_eq!((draws[0].x, draws[0].y), (1, 2));
    assert_eq!((draws[0].width, draws[0].height), (32, 48));
    assert_eq!(draws[1].name, "bush");

    // with no layers active, nothing draws at all
    let dark = Game { active_layers: 0 };
    assert!(texture_draws(&w, &dark).is_empty());
    assert!(rect_draws(&w, &dark).is_empty());
    assert!(fill_draws(&w, &dark).is_empty());
    assert!(text_draws(&w, &dark).is_empty());
}

#[test]
fn text_and_fill_selection_carry_component_values() {
    let mut w = World::new();
    let e = w.create_entity();
    w.positions[e.idx] = Some(Position { x: 3, y: 4 });
    w.rectangles[e.idx] = Some(Rectangle {
        width: 10,
        height: 12,
    });
    w.colors[e.idx] = Some(ui_core::components::Colored {
        color: Rgba::rgba(1, 2, 3, 4),
    });
    w.texts[e.idx] = Some(Text {
        text: "hi".to_owned(),
        color: Rgba::white(),
        visible: true,
        offset: Vec2i { x: 7, y: 8 },
    });
    w.renderables[e.idx] = Some(Renderable {
        visible: true,
        layer: 1,
    });
    let game = Game::new();
    let fills = fill_draws(&w, &game);
    assert_eq!(fills.len(), 1);
    assert_eq!(
        (fills[0].x, fills[0].y, fills[0].width, fills[0].height),
        (3, 4, 10, 12)
    );
    assert_eq!(fills[0].color, Rgba::rgba(1, 2, 3, 4));
    let rects = rect_draws(&w, &game);
    assert_eq!(rects.len(), 1);
    let texts = text_draws(&w, &game);
    assert_eq!(texts.len(), 1);
    assert_eq!(texts[0].text, "hi");
    assert_eq!(texts[0].offset, Vec2i { x: 7, y: 8 });

    // an invisible label is skipped even though the render gate is open
    w.texts[e.idx].as_mut().unwrap().visible = false;
    assert!(text_draws(&w, &game).is_empty());
}

#[test]
fn button_base_carries_the_hit_test_bundle() {
    let mut w = World::new();
    let e = make_button_base(
        &mut w,
        Vec2i { x: 10, y: 20 },
        Vec2i { x: 100, y: 30 },
        Rgba::rgb(5, 5, 5),
        RenderLayers::Menu,
    );
    assert!(w.is_live(e));
    assert_eq!(w.positions[e.idx], Some(Position { x: 10, y: 20 }));
    assert_eq!(
        w.rectangles[e.idx],
        Some(Rectangle {
            width: 100,
            height: 30
        })
    );
    assert!(w.buttons[e.idx].is_some());
    assert_eq!(w.colors[e.idx].unwrap().color, Rgba::rgb(5, 5, 5));
    let r = w.renderables[e.idx].unwrap();
    assert!(r.visible);
    assert_eq!(r.layer, 2);
}

#[test]
fn created_buttons_slide_in_from_the_left() {
    let mut w = World::new();
    let e = create_button(
        Vec2i { x: 600, y: 50 },
        Vec2i { x: 200, y: 50 },
        Rgba::rgba(0, 0, 0, 150),
        "Continue".to_owned(),
        &mut w,
        ButtonKind::Continue,
    );
    assert_eq!(w.positions[e.idx], Some(Position { x: 100, y: 50 }));
    let anim = w.animations[e.idx].unwrap();
    assert_eq!(anim.start_location, Vec2i { x: 100, y: 50 });
    assert_eq!(anim.end_location, Vec2i { x: 600, y: 50 });
    assert!(anim.finished);
    assert!(w.menu_buttons[e.idx]);
    assert!(w.menu_related[e.idx]);
    assert_eq!(w.texts[e.idx].as_ref().unwrap().text, "Continue");
    assert_eq!(w.buttons[e.idx].as_ref().unwrap().kind, ButtonKind::Continue);
    // a plain action button carries no dropdown parent
    assert!(w.dropdown_parents[e.idx].is_none());

    let p = create_button(
        Vec2i { x: 300, y: 50 },
        Vec2i { x: 200, y: 50 },
        Rgba::rgba(0, 0, 0, 150),
        "Resolution".to_owned(),
        &mut w,
        ButtonKind::DropdownParent,
    );
    assert_eq!(
        w.dropdown_parents[p.idx],
        Some(DropdownMenuParent { unwrapped: false })
    );
}

#[test]
fn generate_menu_creates_the_four_action_buttons() {
    let mut w = World::new();
    let menu = generate_menu(&mut w);
    assert_eq!(menu.len(), 4);
    assert_eq!(w.len(), 4);
    let kinds: Vec<ButtonKind> = menu
        .iter()
        .map(|e| w.buttons[e.idx].as_ref().unwrap().kind)
        .collect();
    assert_eq!(
        kinds,
        vec![
            ButtonKind::Continue,
            ButtonKind::Save,
            ButtonKind::Load,
            ButtonKind::Exit
        ]
    );
    let labels: Vec<String> = menu
        .iter()
        .map(|e| w.texts[e.idx].as_ref().unwrap().text.clone())
        .collect();
    assert_eq!(labels, vec!["Continue", "Save", "Load", "Exit"]);
    // stacked 50 pixels apart, slid 500 to the left of x = 50
    for (k, e) in menu.iter().enumerate() {
        assert_eq!(
            w.positions[e.idx],
            Some(Position {
                x: -450,
                y: 50 + 50 * k as i32
            })
        );
    }
}

#[test]
fn drop_down_items_start_hidden_and_carry_their_setting() {
    let mut w = World::new();
    let parent = w.create_entity();
    w.dropdown_parents[parent.idx] = Some(DropdownMenuParent { unwrapped: false });
    let e = create_drop_down_item(
        Vec2i { x: 500, y: 100 },
        Vec2i { x: 200, y: 25 },
        Rgba::rgba(0, 0, 0, 150),
        2,
        &mut w,
        "1920x1080".to_owned(),
        "resolution".to_owned(),
        parent,
    );
    assert!(!w.renderables[e.idx].unwrap().visible);
    let sv = w.settings_values[e.idx].as_ref().unwrap();
    assert_eq!(sv.name, "resolution");
    assert_eq!(sv.value, 2);
    let db = w.dropdown_buttons[e.idx].unwrap();
    assert_eq!(db.parent, parent);
    assert_eq!(w.texts[e.idx].as_ref().unwrap().text, "1920x1080");
}

#[test]
fn option_lists_stack_items_25_pixels_apart() {
    let mut w = World::new();
    let parent = w.create_entity();
    w.dropdown_parents[parent.idx] = Some(DropdownMenuParent { unwrapped: false });
    let values = vec![
        LabelEntry {
            value: 0,
            label: "800x600".to_owned(),
        },
        LabelEntry {
            value: 1,
            label: "1024x768".to_owned(),
        },
    ];
    make_settings_option_list(&mut w, &values, 100, parent, "resolution".to_owned());
    assert_eq!(w.len(), 3);
    assert_eq!(w.positions[1], Some(Position { x: 500, y: 150 }));
    assert_eq!(w.positions[2], Some(Position { x: 500, y: 175 }));
    assert_eq!(w.settings_values[1].as_ref().unwrap().value, 0);
    assert_eq!(w.settings_values[2].as_ref().unwrap().value, 1);
    assert_eq!(w.texts[2].as_ref().unwrap().text, "1024x768");
}

#[test]
fn settings_menu_needs_all_three_tables() {
    let mut info = SettingsInfo::new();
    info.names.push(NameTable {
        name: "animation_speed".to_owned(),
        labels: vec![LabelEntry {
            value: 1,
            label: "Normal".to_owned(),
        }],
    });
    let mut w = World::new();
    // resolution and fullscreen tables are missing: nothing is created
    assert!(generate_settings_menu(&mut w, &info).is_err());
    assert_eq!(w.len(), 0);

    info.names.push(NameTable {
        name: "resolution".to_owned(),
        labels: vec![
            LabelEntry {
                value: 0,
                label: "800x600".to_owned(),
            },
            LabelEntry {
                value: 1,
                label: "1024x768".to_owned(),
            },
        ],
    });
    info.names.push(NameTable {
        name: "fullscreen_type".to_owned(),
        labels: vec![LabelEntry {
            value: 0,
            label: "Windowed".to_owned(),
        }],
    });
    let parents = generate_settings_menu(&mut w, &info).unwrap();
    assert_eq!(parents.len(), 3);
    // three headers plus 1 + 2 + 1 options
    assert_eq!(w.len(), 7);
    for p in &parents {
        assert_eq!(
            w.dropdown_parents[p.idx],
            Some(DropdownMenuParent { unwrapped: false })
        );
        assert_eq!(
            w.buttons[p.idx].as_ref().unwrap().kind,
            ButtonKind::DropdownParent
        );
    }
    // the resolution options hang off the second header
    assert_eq!(w.dropdown_buttons[4].unwrap().parent, parents[1]);
    assert_eq!(w.settings_values[4].as_ref().unwrap().name, "resolution");
}

#[test]
fn destroyed_entities_go_stale_and_lose_components() {
    let mut w = World::new();
    let e = w.create_entity();
    w.positions[e.idx] = Some(Position { x: 1, y: 1 });
    assert!(w.is_live(e));
    w.destroy_entity(e);
    assert!(!w.is_live(e));
    assert!(w.positions[e.idx].is_none());
    // destroying a stale handle is a no-op
    w.destroy_entity(e);
    assert!(!w.is_live(e));
}

#[test]
fn rgba_helpers_build_the_exact_channels() {
    assert_eq!(
        Rgba::rgba(1, 2, 3, 4),
        Rgba {
            r: 1,
            g: 2,
            b: 3,
            a: 4
        }
    );
    assert_eq!(Rgba::rgb(1, 2, 3).a, 255);
    assert_eq!(
        Rgba::white(),
        Rgba {
            r: 255,
            g: 255,
            b: 255,
            a: 255
        }
    );
}
