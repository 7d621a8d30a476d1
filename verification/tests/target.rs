use new_folder::target::{
    choose_target, display_form, prepare_target, strip_quotes, StartError, Target,
};

#[test]
fn quotes_around_are_dropped() {
    assert_eq!(strip_quotes("\"/tmp/x\""), "/tmp/x");
    assert_eq!(strip_quotes("\"C:\\Users\\me\\my docs\""), "C:\\Users\\me\\my docs");
}

#[test]
fn text_without_quotes_is_kept() {
    assert_eq!(strip_quotes("/tmp/x"), "/tmp/x");
    assert_eq!(strip_quotes(""), "");
    assert_eq!(strip_quotes("a"), "a");
}

#[test]
fn only_one_pair_is_dropped() {
    assert_eq!(strip_quotes("\"\"a\"\""), "\"a\"");
}

#[test]
fn empty_pair_gives_empty_text() {
    assert_eq!(strip_quotes("\"\""), "");
}

#[test]
fn lone_quote_is_kept() {
    assert_eq!(strip_quotes("\""), "\"");
}

#[test]
fn quote_on_one_side_is_kept() {
    assert_eq!(strip_quotes("\"/tmp/x"), "\"/tmp/x");
    assert_eq!(strip_quotes("/tmp/x\""), "/tmp/x\"");
}

#[test]
fn quotes_inside_are_kept() {
    assert_eq!(strip_quotes("a\"b\"c"), "a\"b\"c");
}

#[test]
fn quotes_around_text_that_is_not_ascii() {
    assert_eq!(strip_quotes("\"/집/새 폴더\""), "/집/새 폴더");
}

#[test]
fn backslashes_are_shown_as_slashes() {
    assert_eq!(display_form("C:\\Users\\me"), "C:/Users/me");
    assert_eq!(display_form("\\\\server\\share"), "//server/share");
}

#[test]
fn other_characters_are_shown_as_they_are() {
    assert_eq!(display_form("/tmp/x y/집"), "/tmp/x y/집");
    assert_eq!(display_form(""), "");
}

#[test]
fn display_form_twice_is_display_form_once() {
    let once = display_form("a\\b/c\\");
    assert_eq!(once, "a/b/c/");
    assert_eq!(display_form(&once), once);
}

#[test]
fn prepared_target_keeps_native_separators() {
    let target = prepare_target("\"C:\\Users\\me\"");
    assert_eq!(target.native, "C:\\Users\\me");
    assert_eq!(target.display, "C:/Users/me");
}

#[test]
fn prepared_target_of_plain_path() {
    let target = prepare_target("/tmp/x");
    assert_eq!(
        target,
        Target { native: "/tmp/x".to_string(), display: "/tmp/x".to_string() }
    );
}

#[test]
fn argument_is_taken_before_home() {
    let target = choose_target(Some("/tmp/x".to_string()), Some("/home/u".to_string()));
    assert_eq!(target.unwrap().native, "/tmp/x");
    let target = choose_target(Some("\"D:\\new\"".to_string()), None);
    let target = target.unwrap();
    assert_eq!(target.native, "D:\\new");
    assert_eq!(target.display, "D:/new");
}

#[test]
fn home_is_taken_without_argument() {
    let target = choose_target(None, Some("/home/u".to_string())).unwrap();
    assert_eq!(target.native, "/home/u");
    assert_eq!(target.display, "/home/u");
}

#[test]
fn neither_argument_nor_home_is_an_error() {
    assert_eq!(choose_target(None, None), Err(StartError::NoHomeDirectory));
}
