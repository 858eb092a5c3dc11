use ui_core::display::{find_char, parse_resolution, parse_u32_range};
use ui_core::settings::{LabelEntry, NameTable, ResolutionPair, SettingsInfo};

#[test]
fn decimal_parsing_is_exact() {
    assert_eq!(parse_u32_range("800", 0, 3), Some(800));
    assert_eq!(parse_u32_range("0", 0, 1), Some(0));
    assert_eq!(parse_u32_range("", 0, 0), None);
    assert_eq!(parse_u32_range("12a4", 0, 4), None);
    assert_eq!(parse_u32_range("12a4", 0, 2), Some(12));
    assert_eq!(parse_u32_range("4294967295", 0, 10), Some(u32::MAX));
    assert_eq!(parse_u32_range("4294967296", 0, 10), None);
    assert_eq!(parse_u32_range("00800", 0, 5), Some(800));
}

#[test]
fn find_char_returns_first_position() {
    assert_eq!(find_char("800x600", 'x'), Some(3));
    assert_eq!(find_char("axbxc", 'x'), Some(1));
    assert_eq!(find_char("abc", 'x'), None);
    assert_eq!(find_char("", 'x'), None);
}

#[test]
fn resolution_lines_parse_exactly() {
    assert_eq!(
        parse_resolution("800x600"),
        Some(ResolutionPair {
            width: 800,
            height: 600
        })
    );
    assert_eq!(
        parse_resolution("1920x1080"),
        Some(ResolutionPair {
            width: 1920,
            height: 1080
        })
    );
    assert_eq!(parse_resolution("800y600"), None);
    assert_eq!(parse_resolution("x600"), None);
    assert_eq!(parse_resolution("800x"), None);
    assert_eq!(parse_resolution("800x60x0"), None);
    assert_eq!(parse_resolution(""), None);
    assert_eq!(
        parse_resolution("4294967295x1"),
        Some(ResolutionPair {
            width: u32::MAX,
            height: 1
        })
    );
    assert_eq!(parse_resolution("4294967296x1"), None);
}

#[test]
fn building_the_resolution_table_fills_values_and_labels() {
    let mut info = SettingsInfo::new();
    info.resolutions.push("800x600".to_owned());
    info.resolutions.push("1024x768".to_owned());
    assert_eq!(info.build_resolution_table(), Ok(()));
    assert_eq!(
        info.resolution_values,
        vec![
            ResolutionPair {
                width: 800,
                height: 600
            },
            ResolutionPair {
                width: 1024,
                height: 768
            }
        ]
    );
    assert!(info.resolutions.is_empty());
    let zero = info.label_for(&"resolution".to_owned(), 0);
    assert_eq!(zero, Some(&"800x600".to_owned()));
    let one = info.label_for(&"resolution".to_owned(), 1);
    assert_eq!(one, Some(&"1024x768".to_owned()));
    assert_eq!(info.label_for(&"resolution".to_owned(), 2), None);
    assert!(info.wf_check());
}

#[test]
fn building_the_table_replaces_an_existing_resolution_table() {
    let mut info = SettingsInfo::new();
    info.names.push(NameTable {
        name: "resolution".to_owned(),
        labels: vec![LabelEntry {
            value: 0,
            label: "stale".to_owned(),
        }],
    });
    info.resolutions.push("640x480".to_owned());
    assert_eq!(info.build_resolution_table(), Ok(()));
    assert_eq!(info.names.len(), 1);
    assert_eq!(
        info.label_for(&"resolution".to_owned(), 0),
        Some(&"640x480".to_owned())
    );
}

#[test]
fn a_bad_line_fails_the_conversion_and_leaves_the_metadata_alone() {
    let mut info = SettingsInfo::new();
    info.resolutions.push("800x600".to_owned());
    info.resolutions.push("whoops".to_owned());
    assert!(info.build_resolution_table().is_err());
    assert_eq!(info.resolutions.len(), 2);
    assert!(info.resolution_values.is_empty());
    assert!(info.names.is_empty());
}

#[test]
fn label_lookup_misses_unknown_names_and_values() {
    let mut info = SettingsInfo::new();
    info.names.push(NameTable {
        name: "fullscreen_type".to_owned(),
        labels: vec![
            LabelEntry {
                value: 0,
                label: "Windowed".to_owned(),
            },
            LabelEntry {
                value: 1,
                label: "Fullscreen".to_owned(),
            },
        ],
    });
    assert_eq!(
        info.label_for(&"fullscreen_type".to_owned(), 1),
        Some(&"Fullscreen".to_owned())
    );
    assert_eq!(info.label_for(&"fullscreen_type".to_owned(), 3), None);
    assert_eq!(info.label_for(&"gamma".to_owned(), 0), None);
    let table = info.find_table(&"fullscreen_type".to_owned()).unwrap();
    assert_eq!(table.labels.len(), 2);
    assert!(info.find_table(&"gamma".to_owned()).is_none());
}

#[test]
fn wf_checks_reject_duplicates() {
    let mut info = SettingsInfo::new();
    info.names.push(NameTable {
        name: "a".to_owned(),
        labels: vec![],
    });
    info.names.push(NameTable {
        name: "a".to_owned(),
        labels: vec![],
    });
    assert!(!info.wf_check());

    let mut info2 = SettingsInfo::new();
    info2.names.push(NameTable {
        name: "a".to_owned(),
        labels: vec![
            LabelEntry {
                value: 5,
                label: "x".to_owned(),
            },
            LabelEntry {
                value: 5,
                label: "y".to_owned(),
            },
        ],
    });
    assert!(!info2.wf_check());

    let mut s = ui_core::settings::Settings::new();
    s.values.push(ui_core::settings::SettingEntry {
        name: "k".to_owned(),
        value: 1,
    });
    s.values.push(ui_core::settings::SettingEntry {
        name: "k".to_owned(),
        value: 2,
    });
    assert!(!s.wf_check());
}
