use restmote::{modifier_from_lowercase, modifier_from_str, Modifier};

#[test]
fn modifier_from_str_test() {
    assert_eq!(modifier_from_str("control").unwrap(), Modifier::Control);
    assert_eq!(modifier_from_str("option").unwrap(), Modifier::Alternate);
    assert!(modifier_from_str("xyz").is_none());
    assert!(modifier_from_str("").is_none());
}

#[test]
fn modifier_names_ignore_case() {
    let upper = modifier_from_str("SHIFT");
    assert_eq!(upper, Some(Modifier::Shift));
    assert_eq!(modifier_from_str("Shift"), upper);
    assert_eq!(modifier_from_str("shift"), upper);
    assert_eq!(modifier_from_str("COMMAND"), Some(Modifier::Command));
    assert_eq!(modifier_from_str("Control"), Some(Modifier::Control));
}

#[test]
fn alternate_has_three_names() {
    assert_eq!(modifier_from_str("option"), Some(Modifier::Alternate));
    assert_eq!(modifier_from_str("alternate"), Some(Modifier::Alternate));
    assert_eq!(modifier_from_str("alt"), Some(Modifier::Alternate));
    assert_eq!(modifier_from_str("ALT"), Some(Modifier::Alternate));
    assert_eq!(modifier_from_str("Option"), Some(Modifier::Alternate));
}

#[test]
fn lowercase_modifier_lookup_does_not_fold_case() {
    assert_eq!(modifier_from_lowercase("shift"), Some(Modifier::Shift));
    assert_eq!(modifier_from_lowercase("SHIFT"), None);
    assert_eq!(modifier_from_lowercase("meta"), None);
}
