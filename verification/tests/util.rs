use twitch_api::util::string_option::StringOption;

#[test]
fn a_string_slice_stands_for_itself() {
    assert_eq!(StringOption::get("abc"), Some("abc".to_string()));
}

#[test]
fn a_string_stands_for_itself() {
    assert_eq!(StringOption::get("abc".to_string()), Some("abc".to_string()));
}

#[test]
fn the_unit_value_stands_for_none() {
    assert_eq!(StringOption::get(()), None);
}

#[test]
fn an_option_stands_for_itself() {
    assert_eq!(StringOption::get(Some("abc".to_string())), Some("abc".to_string()));
    let none: Option<String> = None;
    assert_eq!(StringOption::get(none), None);
}
