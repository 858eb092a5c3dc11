use ui_core::color::Rgba;
use ui_core::components::{Position, Rectangle, Renderable, SettingsValue, SettingsValueDisplay, Text, Vec2i};
use ui_core::error::UiError;
use ui_core::settings::{
    LabelEntry, NameTable, Settings, SettingsButtonUpdate, SettingsInfo, UpdateSettingsDisplay,
};
use ui_core::display::{DisplayPlan, FullscreenMode};
use ui_core::store::{Entity, World};
use ui_core::ui::{Button, MouseData};

fn resolution_info() -> SettingsInfo {
    let mut info = SettingsInfo::new();
    info.names.push(NameTable {
        name: "resolution".to_owned(),
        labels: vec![
            LabelEntry {
                value: 0,
                label: "800x600".to_owned(),
            },
            LabelEntry {
                value: 1,
                label: "1024x768".to_owned(),
            },
            LabelEntry {
                value: 2,
                label: "1920x1080".to_owned(),
            },
        ],
    });
    assert!(info.wf_check());
    info
}

fn spawn_settings_button(w: &mut World, name: &str, value: i32, visible: bool) -> Entity {
    let e = w.create_entity();
    w.positions[e.idx] = Some(Position { x: 0, y: 0 });
    w.rectangles[e.idx] = Some(Rectangle {
        width: 50,
        height: 50,
    });
    w.buttons[e.idx] = Some(Button::default());
    w.renderables[e.idx] = Some(Renderable { visible, layer: 1 });
    w.settings_values[e.idx] = Some(SettingsValue {
        name: name.to_owned(),
        value,
    });
    e
}

fn spawn_display(w: &mut World, name: &str, initial: &str) -> Entity {
    let e = w.create_entity();
    w.texts[e.idx] = Some(Text {
        text: initial.to_owned(),
        color: Rgba::white(),
        visible: true,
        offset: Vec2i { x: 0, y: 0 },
    });
    w.settings_displays[e.idx] = Some(SettingsValueDisplay {
        name: name.to_owned(),
    });
    e
}

#[test]
fn store_get_write_and_default() {
    let mut s = Settings::default();
    assert!(s.values_changed);
    assert_eq!(s.get("resolution".to_owned()), Some(&0));
    assert_eq!(s.get("fullscreen".to_owned()), Some(&0));
    assert_eq!(s.get("missing".to_owned()), None);
    s.write("resolution".to_owned(), 7);
    assert_eq!(s.get("resolution".to_owned()), Some(&7));
    assert!(s.values_changed);
    assert!(s.wf_check());
}

#[test]
fn click_writes_setting_and_display_sync_shows_its_label() {
    let mut w = World::new();
    spawn_settings_button(&mut w, "resolution", 2, true);
    let d = spawn_display(&mut w, "resolution", "unset");
    let mut s = Settings::new();
    s.mark_applied();
    let info = resolution_info();

    SettingsButtonUpdate::run(
        &w,
        &mut s,
        &MouseData {
            x: 10,
            y: 10,
            pressed: true,
        },
    );
    assert_eq!(s.get("resolution".to_owned()), Some(&2));
    assert!(s.values_changed);

    let errs = UpdateSettingsDisplay::run(&mut w, &s, &info);
    assert!(errs.is_empty());
    assert_eq!(w.texts[d.idx].as_ref().unwrap().text, "1920x1080");
}

#[test]
fn unmapped_value_keeps_label_and_raises_unknown_setting_name() {
    let mut w = World::new();
    let d = spawn_display(&mut w, "resolution", "1920x1080");
    let mut s = Settings::new();
    s.write("resolution".to_owned(), 9);
    let info = resolution_info();
    let errs = UpdateSettingsDisplay::run(&mut w, &s, &info);
    assert_eq!(
        errs,
        vec![UiError::UnknownSettingName {
            name: "resolution".to_owned()
        }]
    );
    assert!(errs[0].is_unknown_setting_name());
    assert_eq!(w.texts[d.idx].as_ref().unwrap().text, "1920x1080");
}

#[test]
fn unknown_setting_name_when_store_has_no_value() {
    let mut w = World::new();
    let d = spawn_display(&mut w, "brightness", "dim");
    let s = Settings::new();
    let info = resolution_info();
    let errs = UpdateSettingsDisplay::run(&mut w, &s, &info);
    assert_eq!(
        errs,
        vec![UiError::UnknownSettingName {
            name: "brightness".to_owned()
        }]
    );
    assert_eq!(w.texts[d.idx].as_ref().unwrap().text, "dim");
}

#[test]
fn settings_write_pass_skips_invisible_misses_and_release_frames() {
    let mut w = World::new();
    spawn_settings_button(&mut w, "resolution", 1, false);
    let mut s = Settings::new();
    s.mark_applied();
    // invisible button: no write
    SettingsButtonUpdate::run(
        &w,
        &mut s,
        &MouseData {
            x: 10,
            y: 10,
            pressed: true,
        },
    );
    assert_eq!(s.get("resolution".to_owned()), None);
    assert!(!s.values_changed);
    // visible but missed: no write
    let mut w2 = World::new();
    spawn_settings_button(&mut w2, "resolution", 1, true);
    SettingsButtonUpdate::run(
        &w2,
        &mut s,
        &MouseData {
            x: 500,
            y: 500,
            pressed: true,
        },
    );
    assert_eq!(s.get("resolution".to_owned()), None);
    // hit but not a press frame: no write
    SettingsButtonUpdate::run(
        &w2,
        &mut s,
        &MouseData {
            x: 10,
            y: 10,
            pressed: false,
        },
    );
    assert_eq!(s.get("resolution".to_owned()), None);
}

#[test]
fn two_clicked_buttons_sharing_a_name_last_in_store_order_wins() {
    let mut w = World::new();
    spawn_settings_button(&mut w, "resolution", 1, true);
    spawn_settings_button(&mut w, "resolution", 2, true);
    let mut s = Settings::new();
    s.mark_applied();
    SettingsButtonUpdate::run(
        &w,
        &mut s,
        &MouseData {
            x: 10,
            y: 10,
            pressed: true,
        },
    );
    // both buttons contain the point; the writes land in slot order, so the
    // later slot's value is the one left in the store
    assert_eq!(s.get("resolution".to_owned()), Some(&2));
    assert!(s.values_changed);
}

#[test]
fn get_settings_absorbs_store_components_without_dirtying() {
    let mut w = World::new();
    spawn_settings_button(&mut w, "volume", 3, true);
    spawn_settings_button(&mut w, "difficulty", 1, true);
    let mut s = Settings::new();
    s.mark_applied();
    s.get_settings(&w);
    assert_eq!(s.get("volume".to_owned()), Some(&3));
    assert_eq!(s.get("difficulty".to_owned()), Some(&1));
    assert!(!s.values_changed);
}

#[test]
fn display_plan_reflects_fullscreen_and_resolution() {
    let mut info = resolution_info();
    info.resolution_values.push(ui_core::settings::ResolutionPair {
        width: 800,
        height: 600,
    });
    info.resolution_values.push(ui_core::settings::ResolutionPair {
        width: 1024,
        height: 768,
    });

    // nothing changed: no plan
    let mut s = Settings::new();
    s.mark_applied();
    assert_eq!(s.plan_display_update(&info), Ok(None));

    // changed but no fullscreen mode stored: no plan
    s.write("resolution".to_owned(), 1);
    assert_eq!(s.plan_display_update(&info), Ok(None));

    // windowed mode with a valid resolution: resize and pin the canvas
    s.write("fullscreen_type".to_owned(), 0);
    assert_eq!(
        s.plan_display_update(&info),
        Ok(Some(DisplayPlan {
            fullscreen: FullscreenMode::Off,
            resize: Some(ui_core::settings::ResolutionPair {
                width: 1024,
                height: 768,
            }),
            set_logical: true,
        }))
    );

    // exclusive fullscreen: same size, no canvas pin
    s.write("fullscreen_type".to_owned(), 1);
    assert_eq!(
        s.plan_display_update(&info),
        Ok(Some(DisplayPlan {
            fullscreen: FullscreenMode::Exclusive,
            resize: Some(ui_core::settings::ResolutionPair {
                width: 1024,
                height: 768,
            }),
            set_logical: false,
        }))
    );

    // desktop fullscreen for value 2; unknown values fall back to windowed
    s.write("fullscreen_type".to_owned(), 2);
    assert!(matches!(
        s.plan_display_update(&info),
        Ok(Some(DisplayPlan {
            fullscreen: FullscreenMode::Desktop,
            ..
        }))
    ));
    s.write("fullscreen_type".to_owned(), 42);
    assert!(matches!(
        s.plan_display_update(&info),
        Ok(Some(DisplayPlan {
            fullscreen: FullscreenMode::Off,
            ..
        }))
    ));

    // a stored resolution outside the size list is a reported error
    s.write("resolution".to_owned(), 5);
    assert!(s.plan_display_update(&info).is_err());
    s.write("resolution".to_owned(), -1);
    assert!(s.plan_display_update(&info).is_err());

    // after applying, the store goes quiet until the next write
    s.write("resolution".to_owned(), 0);
    s.mark_applied();
    assert_eq!(s.plan_display_update(&info), Ok(None));
}
