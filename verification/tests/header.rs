use toshokan::component::header::{Header, HeaderEvent};

fn at(path: &str) -> Header {
    Header::new(Some(path.to_string()), None)
}

fn target(event: Option<HeaderEvent>) -> Option<String> {
    event.map(|HeaderEvent::NavigateTo(path)| path)
}

fn type_text(header: &mut Header, text: &str) {
    for c in text.chars() {
        assert!(header.key_down(&c.to_string(), false).is_none());
    }
}

#[test]
fn header_starts_at_the_given_path() {
    let header = Header::new(Some("/srv/data".to_string()), Some("/home/me".to_string()));
    assert_eq!(header.current_path(), "/srv/data");
    assert_eq!(header.path_input(), "/srv/data");
    assert!(!header.is_editing());
}

#[test]
fn header_falls_back_to_working_directory_then_root() {
    let header = Header::view(None, Some("/home/me".to_string()));
    assert_eq!(header.current_path(), "/home/me");
    assert_eq!(header.path_input(), "/home/me");
    let lost = Header::view(None, None);
    assert_eq!(lost.current_path(), "/");
    assert_eq!(lost.path_input(), "/");
    assert!(!lost.is_editing());
}

#[test]
fn set_path_shows_the_path_in_the_field() {
    let mut header = at("/a");
    header.begin_editing();
    type_text(&mut header, "bc");
    header.set_path("/x/y".to_string());
    assert_eq!(header.current_path(), "/x/y");
    assert_eq!(header.path_input(), "/x/y");
    assert!(header.is_editing());
}

#[test]
fn keys_are_ignored_outside_editing() {
    let mut header = at("/a");
    for key in ["x", "enter", "escape", "backspace"] {
        assert!(header.key_down(key, true).is_none());
        assert_eq!(header.path_input(), "/a");
        assert_eq!(header.current_path(), "/a");
        assert!(!header.is_editing());
    }
    assert!(!header.needs_directory_check("enter"));
}

#[test]
fn typed_characters_are_appended() {
    let mut header = at("/a");
    header.begin_editing();
    assert!(header.is_editing());
    type_text(&mut header, "/b.c-D_1");
    assert_eq!(header.path_input(), "/a/b.c-D_1");
    assert_eq!(header.current_path(), "/a");
}

#[test]
fn named_keys_and_control_characters_type_nothing() {
    let mut header = at("/a");
    header.begin_editing();
    let named = ["space", "tab", "up", "shift", "", "ab", "e\u{301}"];
    let control = ["\n", "\t", "\u{0}", "\u{1f}", "\u{7f}", "\u{9f}"];
    for key in named.into_iter().chain(control) {
        assert!(header.key_down(key, true).is_none());
        assert_eq!(header.path_input(), "/a");
        assert!(header.is_editing());
    }
}

#[test]
fn a_character_of_any_width_is_appended() {
    let mut header = at("/a");
    header.begin_editing();
    assert!(header.key_down("\u{e9}", false).is_none());
    assert_eq!(header.path_input(), "/a\u{e9}");
    for key in ["\u{4e2d}", "\u{1f600}", " ", "~", "\u{a0}", "\u{20}"] {
        assert!(header.key_down(key, false).is_none());
    }
    assert_eq!(header.path_input(), "/a\u{e9}\u{4e2d}\u{1f600} ~\u{a0} ");
    assert_eq!(header.current_path(), "/a");
}

#[test]
fn backspace_removes_the_last_character() {
    let mut header = at("/a\u{e9}");
    header.begin_editing();
    assert!(header.key_down("backspace", false).is_none());
    assert_eq!(header.path_input(), "/a");
    header.key_down("backspace", false);
    header.key_down("backspace", false);
    assert_eq!(header.path_input(), "");
    header.key_down("backspace", false);
    assert_eq!(header.path_input(), "");
    assert_eq!(header.current_path(), "/a\u{e9}");
    assert!(header.is_editing());
}

#[test]
fn enter_on_a_directory_moves_there() {
    let mut header = at("/a");
    header.begin_editing();
    type_text(&mut header, "/b");
    assert!(header.needs_directory_check("enter"));
    assert!(!header.needs_directory_check("escape"));
    let event = header.key_down("enter", true);
    assert_eq!(target(event), Some("/a/b".to_string()));
    assert_eq!(header.current_path(), "/a/b");
    assert_eq!(header.path_input(), "/a/b");
    assert!(!header.is_editing());
}

#[test]
fn enter_on_anything_else_keeps_the_text() {
    let mut header = at("/a");
    header.begin_editing();
    type_text(&mut header, "/nowhere");
    assert!(header.key_down("enter", false).is_none());
    assert_eq!(header.current_path(), "/a");
    assert_eq!(header.path_input(), "/a/nowhere");
    assert!(header.is_editing());
}

#[test]
fn escape_restores_the_current_path() {
    let mut header = at("/a");
    header.begin_editing();
    type_text(&mut header, "/b");
    assert!(header.key_down("escape", true).is_none());
    assert_eq!(header.current_path(), "/a");
    assert_eq!(header.path_input(), "/a");
    assert!(!header.is_editing());
}

#[test]
fn go_back_steps_to_the_parent() {
    let mut header = at("/home/me/notes");
    assert_eq!(target(header.go_back()), Some("/home/me".to_string()));
    assert_eq!(header.current_path(), "/home/me");
    assert_eq!(header.path_input(), "/home/me");
    assert_eq!(target(header.go_back()), Some("/home".to_string()));
    assert_eq!(target(header.go_back()), Some("/".to_string()));
    assert!(header.go_back().is_none());
    assert_eq!(header.current_path(), "/");
    assert_eq!(header.path_input(), "/");
}

#[test]
fn go_back_from_a_relative_path_ends_at_the_empty_path() {
    let mut header = at("a/b");
    assert_eq!(target(header.go_back()), Some("a".to_string()));
    assert_eq!(target(header.go_back()), Some(String::new()));
    assert!(header.go_back().is_none());
    assert_eq!(header.current_path(), "");
}

#[test]
fn go_back_to_takes_the_parent_it_is_given() {
    let mut header = at("/a/b");
    assert!(header.go_back_to(None).is_none());
    assert_eq!(header.current_path(), "/a/b");
    let event = header.go_back_to(Some("/a".to_string()));
    assert_eq!(target(event), Some("/a".to_string()));
    assert_eq!(header.current_path(), "/a");
    assert_eq!(header.path_input(), "/a");
}
