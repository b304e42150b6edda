use super_enum::names::display_name;

#[test]
fn single_word_is_unchanged() {
    assert_eq!(display_name("Idle"), "Idle");
    assert_eq!(display_name("lower"), "lower");
}

#[test]
fn space_before_each_later_uppercase() {
    assert_eq!(display_name("RunningFast"), "Running Fast");
    assert_eq!(display_name("VeryLongVariantName"), "Very Long Variant Name");
}

#[test]
fn leading_uppercase_gets_no_space() {
    assert_eq!(display_name("Stopped"), "Stopped");
    assert_eq!(display_name("A"), "A");
}

#[test]
fn adjacent_uppercase_letters_are_each_split() {
    assert_eq!(display_name("AB"), "A B");
    assert_eq!(display_name("HTTPError"), "H T T P Error");
}

#[test]
fn empty_identifier_stays_empty() {
    assert_eq!(display_name(""), "");
}

#[test]
fn digits_and_lowercase_are_kept_in_place() {
    assert_eq!(display_name("Mode2Fast"), "Mode2 Fast");
}

#[test]
fn uppercase_outside_ascii_is_split_too() {
    assert_eq!(display_name("ÖlStand"), "Öl Stand");
}
