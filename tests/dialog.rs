use obs_shell::dialog::{dialog_kind, kind_from_lowercase, DialogKind};

#[test]
fn kinds_by_name() {
    assert_eq!(dialog_kind("info"), DialogKind::Info);
    assert_eq!(dialog_kind("warn"), DialogKind::Warning);
    assert_eq!(dialog_kind("error"), DialogKind::Error);
}

#[test]
fn kind_names_ignore_case() {
    assert_eq!(dialog_kind("ERROR"), DialogKind::Error);
    assert_eq!(dialog_kind("Warn"), DialogKind::Warning);
}

#[test]
fn unknown_kind_is_information() {
    assert_eq!(dialog_kind("fatal"), DialogKind::Info);
    assert_eq!(kind_from_lowercase("ERROR"), DialogKind::Info);
}
