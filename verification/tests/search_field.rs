use fabric::search::{Keystroke, SearchInput};

fn key(name: &str) -> Keystroke {
    Keystroke {
        key: name.into(),
        key_char: None,
        platform: false,
        control: false,
        function: false,
        shift: false,
    }
}

fn typed(text: &str) -> Keystroke {
    Keystroke { key_char: Some(text.into()), ..key(text) }
}

fn field_with(text: &str) -> SearchInput {
    let mut f = SearchInput::new();
    for c in text.chars() {
        f.handle_key(&typed(&c.to_string()));
    }
    f
}

#[test]
fn typing_appends_at_the_caret() {
    let f = field_with("gpu");
    assert_eq!(f.query(), "gpu");
    assert_eq!(f.selection(), (3, 3));
}

#[test]
fn backspace_and_delete_edit_around_the_caret() {
    let mut f = field_with("abc");
    f.handle_key(&key("left"));
    f.handle_key(&key("backspace"));
    assert_eq!(f.query(), "ac");
    assert_eq!(f.selection(), (1, 1));
    f.handle_key(&key("delete"));
    assert_eq!(f.query(), "a");
    assert_eq!(f.selection(), (1, 1));
    f.handle_key(&key("delete"));
    assert_eq!(f.query(), "a");
}

#[test]
fn backspace_at_the_start_removes_the_first_character() {
    let mut f = field_with("xy");
    f.handle_key(&key("left"));
    f.handle_key(&key("left"));
    f.handle_key(&key("left"));
    assert_eq!(f.selection(), (0, 0));
    f.handle_key(&key("backspace"));
    assert_eq!(f.query(), "y");
    assert_eq!(f.selection(), (0, 0));
}

#[test]
fn select_all_then_typing_replaces_the_query() {
    let mut f = field_with("old");
    f.handle_key(&Keystroke { control: true, ..key("a") });
    assert!(f.has_selection());
    assert_eq!(f.selection(), (0, 3));
    f.handle_key(&typed("n"));
    assert_eq!(f.query(), "n");
    assert_eq!(f.selection(), (1, 1));
}

#[test]
fn arrows_collapse_a_selection_to_its_ends() {
    let mut f = field_with("abcd");
    f.handle_key(&Keystroke { platform: true, ..key("a") });
    f.handle_key(&key("left"));
    assert_eq!(f.selection(), (0, 0));
    f.handle_key(&Keystroke { platform: true, ..key("a") });
    f.handle_key(&key("right"));
    assert_eq!(f.selection(), (4, 4));
    f.handle_key(&key("right"));
    assert_eq!(f.selection(), (4, 4));
}

#[test]
fn escape_clears_and_modifiers_are_ignored() {
    let mut f = field_with("run");
    f.handle_key(&Keystroke { control: true, ..typed("x") });
    f.handle_key(&Keystroke { function: true, ..typed("x") });
    assert_eq!(f.query(), "run");
    f.handle_key(&key("escape"));
    assert_eq!(f.query(), "");
    assert_eq!(f.selection(), (0, 0));
}

#[test]
fn control_text_and_shifted_names_are_not_typed() {
    let mut f = SearchInput::new();
    f.handle_key(&typed("\u{7}"));
    assert_eq!(f.query(), "");
    f.handle_key(&Keystroke { shift: true, ..key("q") });
    assert_eq!(f.query(), "");
    f.handle_key(&key("q"));
    assert_eq!(f.query(), "q");
    f.handle_key(&key("tab"));
    assert_eq!(f.query(), "q");
}

#[test]
fn typed_then_backspaced_restores_the_field() {
    let mut f = field_with("abc");
    f.handle_key(&key("left"));
    f.handle_key(&typed("z"));
    assert_eq!(f.query(), "abzc");
    f.handle_key(&key("backspace"));
    assert_eq!(f.query(), "abc");
    assert_eq!(f.selection(), (2, 2));
}

#[test]
fn clicks_move_the_caret_to_the_end_or_dismiss() {
    let mut f = field_with("abc");
    f.handle_key(&key("left"));
    f.handle_key(&key("left"));
    f.on_mouse_down();
    assert_eq!(f.selection(), (3, 3));
    f.select_all();
    f.on_mouse_down_out();
    assert_eq!(f.selection(), (3, 3));
    f.insert_str("\u{e9}t\u{e9}");
    assert_eq!(f.query(), "abc\u{e9}t\u{e9}");
    assert!(f.delete_selection() == false);
}
