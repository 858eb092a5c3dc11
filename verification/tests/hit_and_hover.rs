use ui_core::color::Rgba;
use ui_core::components::{Colored, Position, Rectangle, Sprite, Text, Vec2i, Vec2u};
use ui_core::store::{Entity, World};
use ui_core::ui::{
    check_button_press, get_first_pressed_down_button, point_in_rect, update_button_hover,
    update_response_text, Button, ButtonKind, ButtonUpdateSystem, MouseData,
};

fn spawn_plain_button(w: &mut World, x: i32, y: i32, width: i32, height: i32) -> Entity {
    let e = w.create_entity();
    w.positions[e.idx] = Some(Position { x, y });
    w.rectangles[e.idx] = Some(Rectangle { width, height });
    w.buttons[e.idx] = Some(Button::default());
    e
}

#[test]
fn hit_test_is_inclusive_on_all_four_bounds() {
    let pos = Position { x: 10, y: 20 };
    let rect = Rectangle { width: 100, height: 50 };
    // corners, all inclusive
    assert!(point_in_rect(10, 20, &pos, &rect));
    assert!(point_in_rect(110, 20, &pos, &rect));
    assert!(point_in_rect(10, 70, &pos, &rect));
    assert!(point_in_rect(110, 70, &pos, &rect));
    // strictly inside
    assert!(point_in_rect(50, 40, &pos, &rect));
    // just outside each bound
    assert!(!point_in_rect(9, 40, &pos, &rect));
    assert!(!point_in_rect(111, 40, &pos, &rect));
    assert!(!point_in_rect(50, 19, &pos, &rect));
    assert!(!point_in_rect(50, 71, &pos, &rect));
}

#[test]
fn hit_test_does_not_overflow_near_extremes() {
    let pos = Position {
        x: i32::MAX - 10,
        y: i32::MAX - 10,
    };
    let rect = Rectangle {
        width: i32::MAX,
        height: i32::MAX,
    };
    assert!(point_in_rect(i32::MAX, i32::MAX, &pos, &rect));
    assert!(!point_in_rect(i32::MAX - 11, i32::MAX, &pos, &rect));
}

#[test]
fn overlapping_buttons_resolve_to_first_created() {
    let mut w = World::new();
    let first = spawn_plain_button(&mut w, 0, 0, 100, 100);
    let _second = spawn_plain_button(&mut w, 0, 0, 100, 100);
    let hit = get_first_pressed_down_button(&w, 50, 50, ButtonKind::Plain);
    assert_eq!(hit, Some(first));
    // the same overlapping point never returns both or neither
    let again = get_first_pressed_down_button(&w, 50, 50, ButtonKind::Plain);
    assert_eq!(again, Some(first));
}

#[test]
fn pressed_button_lookup_respects_kind_and_miss() {
    let mut w = World::new();
    let e = spawn_plain_button(&mut w, 0, 0, 10, 10);
    w.buttons[e.idx] = Some(Button {
        kind: ButtonKind::Save,
        ..Button::default()
    });
    assert_eq!(
        get_first_pressed_down_button(&w, 5, 5, ButtonKind::Save),
        Some(e)
    );
    assert_eq!(get_first_pressed_down_button(&w, 5, 5, ButtonKind::Load), None);
    assert_eq!(get_first_pressed_down_button(&w, 50, 50, ButtonKind::Save), None);
}

#[test]
fn hover_pass_applies_hovered_and_normal_overrides() {
    let mut w = World::new();
    let e = spawn_plain_button(&mut w, 0, 0, 100, 100);
    w.buttons[e.idx] = Some(Button {
        hovered_over: false,
        kind: ButtonKind::Plain,
        hovered_over_texture_name: Some("hot".to_owned()),
        hovered_over_text: Some("over".to_owned()),
        hovered_over_color: Some(Rgba::rgb(1, 2, 3)),
        normal_texture_name: Some("cold".to_owned()),
        normal_text: Some("idle".to_owned()),
        normal_color: Some(Rgba::rgb(9, 9, 9)),
    });
    w.sprites[e.idx] = Some(Sprite {
        name: "start".to_owned(),
        source_rect: None,
        size: Vec2u { x: 16, y: 16 },
        visible: true,
    });
    w.texts[e.idx] = Some(Text {
        text: "start".to_owned(),
        color: Rgba::white(),
        visible: true,
        offset: Vec2i { x: 0, y: 0 },
    });
    w.colors[e.idx] = Some(Colored {
        color: Rgba::rgb(0, 0, 0),
    });

    ButtonUpdateSystem::run(
        &mut w,
        &MouseData {
            x: 50,
            y: 50,
            pressed: false,
        },
    );
    assert_eq!(w.sprites[e.idx].as_ref().unwrap().name, "hot");
    assert_eq!(w.texts[e.idx].as_ref().unwrap().text, "over");
    assert_eq!(w.colors[e.idx].unwrap().color, Rgba::rgb(1, 2, 3));

    ButtonUpdateSystem::run(
        &mut w,
        &MouseData {
            x: 500,
            y: 50,
            pressed: false,
        },
    );
    assert_eq!(w.sprites[e.idx].as_ref().unwrap().name, "cold");
    assert_eq!(w.texts[e.idx].as_ref().unwrap().text, "idle");
    assert_eq!(w.colors[e.idx].unwrap().color, Rgba::rgb(9, 9, 9));
}

#[test]
fn hover_pass_keeps_fields_without_overrides() {
    let mut w = World::new();
    let e = spawn_plain_button(&mut w, 0, 0, 100, 100);
    w.sprites[e.idx] = Some(Sprite {
        name: "keep".to_owned(),
        source_rect: None,
        size: Vec2u { x: 8, y: 8 },
        visible: false,
    });
    ButtonUpdateSystem::run(
        &mut w,
        &MouseData {
            x: 1,
            y: 1,
            pressed: false,
        },
    );
    assert_eq!(w.sprites[e.idx].as_ref().unwrap().name, "keep");
    assert!(!w.sprites[e.idx].as_ref().unwrap().visible);
}

#[test]
fn hover_feedback_sets_flag_and_tint_keeping_alpha() {
    let mut w = World::new();
    let e = spawn_plain_button(&mut w, 0, 0, 10, 10);
    w.colors[e.idx] = Some(Colored {
        color: Rgba::rgba(7, 7, 7, 42),
    });
    update_button_hover(&mut w, 5, 5);
    assert!(w.buttons[e.idx].as_ref().unwrap().hovered_over);
    assert_eq!(w.colors[e.idx].unwrap().color, Rgba::rgba(0, 150, 150, 42));

    update_button_hover(&mut w, 50, 50);
    assert!(!w.buttons[e.idx].as_ref().unwrap().hovered_over);
    assert_eq!(w.colors[e.idx].unwrap().color, Rgba::rgba(0, 0, 0, 42));
}

#[test]
fn response_text_updates_only_marked_labels() {
    let mut w = World::new();
    let marked = w.create_entity();
    w.texts[marked.idx] = Some(Text {
        text: "old".to_owned(),
        color: Rgba::white(),
        visible: true,
        offset: Vec2i { x: 1, y: 2 },
    });
    w.response_texts[marked.idx] = true;
    let plain = w.create_entity();
    w.texts[plain.idx] = Some(Text {
        text: "old".to_owned(),
        color: Rgba::white(),
        visible: true,
        offset: Vec2i { x: 0, y: 0 },
    });
    update_response_text(&mut w, "saved!".to_owned(), Rgba::rgb(0, 255, 0));
    let t = w.texts[marked.idx].as_ref().unwrap();
    assert_eq!(t.text, "saved!");
    assert_eq!(t.color, Rgba::rgb(0, 255, 0));
    assert_eq!(t.offset, Vec2i { x: 1, y: 2 });
    assert_eq!(w.texts[plain.idx].as_ref().unwrap().text, "old");
}

#[test]
fn menu_button_press_requires_marker_visibility_and_hit() {
    let mut w = World::new();
    let e = spawn_plain_button(&mut w, 0, 0, 10, 10);
    w.menu_buttons[e.idx] = true;
    w.renderables[e.idx] = Some(ui_core::components::Renderable {
        visible: true,
        layer: 1,
    });
    assert!(check_button_press(&w, 5, 5, ButtonKind::Plain));
    assert!(!check_button_press(&w, 50, 50, ButtonKind::Plain));
    assert!(!check_button_press(&w, 5, 5, ButtonKind::Exit));
    w.renderables[e.idx] = Some(ui_core::components::Renderable {
        visible: false,
        layer: 1,
    });
    assert!(!check_button_press(&w, 5, 5, ButtonKind::Plain));
}
