use ui_core::components::{Position, Rectangle, Renderable};
use ui_core::dropdown::{DropDownButtonCheck, DropDownItemUpdate, DropDownUpdate};
use ui_core::error::UiError;
use ui_core::store::{Entity, World};
use ui_core::ui::{Button, DropdownMenuButton, DropdownMenuParent, MouseData};

fn spawn_parent(w: &mut World, x: i32, y: i32) -> Entity {
    let e = w.create_entity();
    w.positions[e.idx] = Some(Position { x, y });
    w.rectangles[e.idx] = Some(Rectangle {
        width: 100,
        height: 30,
    });
    w.buttons[e.idx] = Some(Button::default());
    w.dropdown_parents[e.idx] = Some(DropdownMenuParent { unwrapped: false });
    e
}

fn spawn_child(w: &mut World, parent: Entity, x: i32, y: i32, visible: bool) -> Entity {
    let e = w.create_entity();
    w.positions[e.idx] = Some(Position { x, y });
    w.rectangles[e.idx] = Some(Rectangle {
        width: 100,
        height: 20,
    });
    w.renderables[e.idx] = Some(Renderable { visible, layer: 1 });
    w.dropdown_buttons[e.idx] = Some(DropdownMenuButton {
        parent,
        list_id: 0,
    });
    e
}

fn press_at(x: i32, y: i32) -> MouseData {
    MouseData {
        x,
        y,
        pressed: true,
    }
}

#[test]
fn click_inside_parent_toggles_once_per_press() {
    let mut w = World::new();
    let p = spawn_parent(&mut w, 0, 0);
    DropDownUpdate::run(&mut w, &press_at(10, 10));
    assert!(w.dropdown_parents[p.idx].unwrap().unwrapped);
    DropDownUpdate::run(&mut w, &press_at(10, 10));
    assert!(!w.dropdown_parents[p.idx].unwrap().unwrapped);
}

#[test]
fn click_elsewhere_forces_parent_closed() {
    let mut w = World::new();
    let p = spawn_parent(&mut w, 0, 0);
    DropDownUpdate::run(&mut w, &press_at(10, 10));
    assert!(w.dropdown_parents[p.idx].unwrap().unwrapped);
    DropDownUpdate::run(&mut w, &press_at(500, 500));
    assert!(!w.dropdown_parents[p.idx].unwrap().unwrapped);
}

#[test]
fn no_press_means_no_toggle() {
    let mut w = World::new();
    let p = spawn_parent(&mut w, 0, 0);
    DropDownUpdate::run(
        &mut w,
        &MouseData {
            x: 10,
            y: 10,
            pressed: false,
        },
    );
    assert!(!w.dropdown_parents[p.idx].unwrap().unwrapped);
}

#[test]
fn cascade_mirrors_parent_state_both_ways() {
    let mut w = World::new();
    let p = spawn_parent(&mut w, 0, 0);
    let c1 = spawn_child(&mut w, p, 0, 40, false);
    let c2 = spawn_child(&mut w, p, 0, 60, false);

    // unfold the parent, cascade: both children become visible in the same frame
    DropDownUpdate::run(&mut w, &press_at(10, 10));
    let errs = DropDownItemUpdate::run(&mut w);
    assert!(errs.is_empty());
    assert!(w.renderables[c1.idx].unwrap().visible);
    assert!(w.renderables[c2.idx].unwrap().visible);

    // fold it again (freshly-collapsed parent): both children go invisible
    DropDownUpdate::run(&mut w, &press_at(10, 10));
    let errs = DropDownItemUpdate::run(&mut w);
    assert!(errs.is_empty());
    assert!(!w.renderables[c1.idx].unwrap().visible);
    assert!(!w.renderables[c2.idx].unwrap().visible);
}

#[test]
fn cascade_reports_unresolved_parent_and_keeps_visibility() {
    let mut w = World::new();
    let p = spawn_parent(&mut w, 0, 0);
    let c = spawn_child(&mut w, p, 0, 40, true);
    w.destroy_entity(p);
    let errs = DropDownItemUpdate::run(&mut w);
    assert_eq!(
        errs,
        vec![UiError::UnresolvedParentReference { child_slot: c.idx }]
    );
    assert!(errs[0].is_unresolved_parent_reference());
    assert!(!errs[0].is_unknown_setting_name());
    // the child's visibility was left alone
    assert!(w.renderables[c.idx].unwrap().visible);
}

#[test]
fn stale_generation_does_not_resolve() {
    let mut w = World::new();
    let p = spawn_parent(&mut w, 0, 0);
    let c = spawn_child(&mut w, p, 0, 40, false);
    // destroy the parent and put a new dropdown parent into the same slot
    w.destroy_entity(p);
    assert!(!w.is_live(p));
    w.alive[p.idx] = true;
    w.dropdown_parents[p.idx] = Some(DropdownMenuParent { unwrapped: true });
    // the child still holds the old generation, so the cascade must not
    // read the unrelated new data
    let errs = DropDownItemUpdate::run(&mut w);
    assert_eq!(
        errs,
        vec![UiError::UnresolvedParentReference { child_slot: c.idx }]
    );
    assert!(!w.renderables[c.idx].unwrap().visible);
}

#[test]
fn clicking_visible_child_collapses_parent_outside_its_rect() {
    let mut w = World::new();
    let p = spawn_parent(&mut w, 0, 0);
    let c = spawn_child(&mut w, p, 0, 200, true);
    w.dropdown_parents[p.idx] = Some(DropdownMenuParent { unwrapped: true });
    // the click point (10, 210) is inside the child but outside the parent
    let pos = w.positions[p.idx].unwrap();
    let rect = w.rectangles[p.idx].unwrap();
    assert!(!ui_core::ui::point_in_rect(10, 210, &pos, &rect));
    let errs = DropDownButtonCheck::run(&mut w, &press_at(10, 210));
    assert!(errs.is_empty());
    assert!(!w.dropdown_parents[p.idx].unwrap().unwrapped);
    let _ = c;
}

#[test]
fn invisible_child_click_does_not_collapse_parent() {
    let mut w = World::new();
    let p = spawn_parent(&mut w, 0, 0);
    let _c = spawn_child(&mut w, p, 0, 200, false);
    w.dropdown_parents[p.idx] = Some(DropdownMenuParent { unwrapped: true });
    let errs = DropDownButtonCheck::run(&mut w, &press_at(10, 210));
    assert!(errs.is_empty());
    assert!(w.dropdown_parents[p.idx].unwrap().unwrapped);
}

#[test]
fn child_click_with_dangling_parent_is_reported_not_fatal() {
    let mut w = World::new();
    let p = spawn_parent(&mut w, 0, 0);
    let c = spawn_child(&mut w, p, 0, 200, true);
    w.destroy_entity(p);
    let errs = DropDownButtonCheck::run(&mut w, &press_at(10, 210));
    assert_eq!(
        errs,
        vec![UiError::UnresolvedParentReference { child_slot: c.idx }]
    );
}

#[test]
fn close_pass_ignores_frames_without_press() {
    let mut w = World::new();
    let p = spawn_parent(&mut w, 0, 0);
    let _c = spawn_child(&mut w, p, 0, 200, true);
    w.dropdown_parents[p.idx] = Some(DropdownMenuParent { unwrapped: true });
    let errs = DropDownButtonCheck::run(
        &mut w,
        &MouseData {
            x: 10,
            y: 210,
            pressed: false,
        },
    );
    assert!(errs.is_empty());
    assert!(w.dropdown_parents[p.idx].unwrap().unwrapped);
}
