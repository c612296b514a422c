use seaside_installer::{add_to_path, remove_from_path};

const DIR: &str = "C:\\ProgramData\\seaside";

#[test]
fn add_to_empty_value() {
    assert_eq!(add_to_path("", DIR), Some(DIR.to_string()));
}

#[test]
fn add_behind_separator() {
    assert_eq!(
        add_to_path("C:\\Windows;C:\\Tools", DIR),
        Some("C:\\Windows;C:\\Tools;C:\\ProgramData\\seaside".to_string())
    );
}

#[test]
fn add_after_trailing_separator() {
    assert_eq!(
        add_to_path("C:\\Windows;", DIR),
        Some("C:\\Windows;C:\\ProgramData\\seaside".to_string())
    );
}

#[test]
fn add_when_present_writes_nothing() {
    assert_eq!(add_to_path("C:\\ProgramData\\seaside;C:\\Windows", DIR), None);
    assert_eq!(add_to_path("C:\\Windows;C:\\ProgramData\\seaside", DIR), None);
}

#[test]
fn add_compares_exactly() {
    assert_eq!(
        add_to_path("c:\\programdata\\seaside", DIR),
        Some("c:\\programdata\\seaside;C:\\ProgramData\\seaside".to_string())
    );
    assert_eq!(
        add_to_path("C:\\ProgramData\\seaside\\", DIR),
        Some("C:\\ProgramData\\seaside\\;C:\\ProgramData\\seaside".to_string())
    );
}

#[test]
fn add_twice_same_as_once() {
    for start in ["", "A", "A;", "A;B", ";;"] {
        let once = add_to_path(start, DIR).unwrap_or_else(|| start.to_string());
        assert_eq!(add_to_path(&once, DIR), None);
    }
}

#[test]
fn remove_every_copy() {
    assert_eq!(
        remove_from_path("A;C:\\ProgramData\\seaside;B;C:\\ProgramData\\seaside", DIR),
        Some("A;B".to_string())
    );
}

#[test]
fn remove_only_entry() {
    assert_eq!(remove_from_path(DIR, DIR), Some(String::new()));
}

#[test]
fn remove_absent_writes_nothing() {
    assert_eq!(remove_from_path("A;B", DIR), None);
    assert_eq!(remove_from_path("", DIR), None);
}

#[test]
fn remove_keeps_empty_segments() {
    assert_eq!(
        remove_from_path("A;;C:\\ProgramData\\seaside;", DIR),
        Some("A;;".to_string())
    );
}

#[test]
fn remove_leaves_no_segment_equal() {
    for start in ["C:\\ProgramData\\seaside", "A;C:\\ProgramData\\seaside;C:\\ProgramData\\seaside", "x;y"] {
        let after = remove_from_path(start, DIR).unwrap_or_else(|| start.to_string());
        assert!(after.split(';').all(|s| s != DIR));
    }
}

#[test]
fn remove_empty_directory_from_empty_value() {
    assert_eq!(remove_from_path("", ""), None);
    assert_eq!(remove_from_path("A;;B", ""), Some("A;B".to_string()));
}
