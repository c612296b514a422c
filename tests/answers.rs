use seaside_installer::errors::{error_report, tolerate_existing, tolerate_missing, PERMISSION_HINT};
use seaside_installer::parse_answer;
use seaside_installer::{ErrorKind, LogLevel};

#[test]
fn yes_in_any_case() {
    for line in ["y", "Y", "yes", "YES", "YeS", "y\n", "yes\r\n"] {
        assert_eq!(parse_answer(line), Some(true), "{line:?}");
    }
}

#[test]
fn no_in_any_case() {
    for line in ["n", "N", "no", "NO", "nO", "No\n", "n\r\n"] {
        assert_eq!(parse_answer(line), Some(false), "{line:?}");
    }
}

#[test]
fn invalid_then_yes() {
    assert_eq!(parse_answer("maybe\n"), None);
    assert_eq!(parse_answer("y\n"), Some(true));
}

#[test]
fn other_answers_are_invalid() {
    for line in ["", "\n", " y\n", "yess", "ye", "y\r", "nope", "yes please\n", "ÿ"] {
        assert_eq!(parse_answer(line), None, "{line:?}");
    }
}

#[test]
fn missing_counts_as_removed() {
    assert_eq!(tolerate_missing(None), Ok(true));
    assert_eq!(tolerate_missing(Some(ErrorKind::NotFound)), Ok(false));
    assert_eq!(tolerate_missing(Some(ErrorKind::PermissionDenied)), Err(ErrorKind::PermissionDenied));
    assert_eq!(tolerate_missing(Some(ErrorKind::AlreadyExists)), Err(ErrorKind::AlreadyExists));
    assert_eq!(tolerate_missing(Some(ErrorKind::UnexpectedEof)), Err(ErrorKind::UnexpectedEof));
    assert_eq!(tolerate_missing(Some(ErrorKind::Other)), Err(ErrorKind::Other));
}

#[test]
fn existing_counts_as_created() {
    assert_eq!(tolerate_existing(None), Ok(true));
    assert_eq!(tolerate_existing(Some(ErrorKind::AlreadyExists)), Ok(false));
    assert_eq!(tolerate_existing(Some(ErrorKind::NotFound)), Err(ErrorKind::NotFound));
    assert_eq!(tolerate_existing(Some(ErrorKind::PermissionDenied)), Err(ErrorKind::PermissionDenied));
}

#[test]
fn permission_denied_report_has_hint() {
    let lines = error_report(ErrorKind::PermissionDenied, "Permission denied (os error 13)");
    assert_eq!(lines.len(), 2);
    assert_eq!(lines[0], "[ERROR] Permission denied (os error 13)");
    assert!(lines[0].contains("[ERROR]"));
    assert_eq!(lines[1], "you may need to run this as root/admin");
    assert_eq!(PERMISSION_HINT, "you may need to run this as root/admin");
}

#[test]
fn other_report_has_no_hint() {
    for kind in [ErrorKind::NotFound, ErrorKind::Other, ErrorKind::UnexpectedEof, ErrorKind::AlreadyExists] {
        let lines = error_report(kind, "boom");
        assert_eq!(lines, vec!["[ERROR] boom".to_string()]);
    }
}

#[test]
fn log_levels() {
    assert_eq!(LogLevel::default(), LogLevel::Info);
    assert!(LogLevel::Debug.shows(LogLevel::Debug));
    assert!(LogLevel::Info.shows(LogLevel::Warn));
    assert!(!LogLevel::Info.shows(LogLevel::Debug));
    assert!(!LogLevel::Warn.shows(LogLevel::Info));
    assert!(LogLevel::Warn.shows(LogLevel::Warn));
}
