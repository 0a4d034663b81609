use budgr::ui_data::InputData;

fn field(text: &str, caret: usize) -> InputData {
    InputData { input: text.to_string(), character_pos: caret }
}

#[test]
fn a_new_field_is_empty() {
    assert_eq!(InputData::new(), field("", 0));
}

#[test]
fn enter_char_puts_the_char_at_the_caret() {
    let mut f = InputData::new();
    f.enter_char('a');
    assert_eq!(f, field("a", 1));
    f.enter_char('c');
    assert_eq!(f, field("ac", 2));
    f.move_cursor_left();
    f.enter_char('b');
    assert_eq!(f, field("abc", 2));
    f.move_cursor_left();
    f.move_cursor_left();
    f.enter_char('ñ');
    assert_eq!(f, field("ñabc", 1));
    f.enter_char('é');
    assert_eq!(f, field("ñéabc", 2));
}

#[test]
fn enter_char_with_the_caret_behind_the_text_appends() {
    let mut f = field("ab", 7);
    f.enter_char('c');
    assert_eq!(f, field("abc", 3));
    let mut g = field("ab", usize::MAX);
    g.enter_char('c');
    assert_eq!(g, field("abc", 3));
}

#[test]
fn the_caret_stops_at_both_ends() {
    let mut f = field("ab", 0);
    f.move_cursor_left();
    assert_eq!(f, field("ab", 0));
    f.move_cursor_right();
    assert_eq!(f, field("ab", 1));
    f.move_cursor_right();
    assert_eq!(f, field("ab", 2));
    f.move_cursor_right();
    assert_eq!(f, field("ab", 2));
    f.move_cursor_left();
    assert_eq!(f, field("ab", 1));
    let mut empty = InputData::new();
    empty.move_cursor_right();
    assert_eq!(empty, field("", 0));
    empty.move_cursor_left();
    assert_eq!(empty, field("", 0));
}

#[test]
fn a_caret_behind_the_text_is_brought_back() {
    let mut f = field("ab", 9);
    f.move_cursor_left();
    assert_eq!(f, field("ab", 2));
    let mut g = field("ab", 9);
    g.move_cursor_right();
    assert_eq!(g, field("ab", 2));
    let mut h = field("ab", usize::MAX);
    h.move_cursor_right();
    assert_eq!(h, field("ab", 2));
    assert_eq!(field("ab", 0).clamp_cursor(5), 2);
    assert_eq!(field("ab", 0).clamp_cursor(2), 2);
    assert_eq!(field("ab", 0).clamp_cursor(1), 1);
    assert_eq!(field("ñé", 0).clamp_cursor(3), 2);
}

#[test]
fn delete_char_takes_out_the_char_left_of_the_caret() {
    let mut f = field("añc", 2);
    f.delete_char();
    assert_eq!(f, field("ac", 1));
    f.delete_char();
    assert_eq!(f, field("c", 0));
    f.delete_char();
    assert_eq!(f, field("c", 0));
    let mut g = field("abc", 3);
    g.delete_char();
    assert_eq!(g, field("ab", 2));
}

#[test]
fn delete_char_with_the_caret_behind_the_text_takes_nothing_out() {
    let mut f = field("ab", 5);
    f.delete_char();
    assert_eq!(f, field("ab", 2));
    let mut g = field("ab", 3);
    g.delete_char();
    assert_eq!(g, field("ab", 2));
}

#[test]
fn reset_cursor_puts_the_caret_at_the_start() {
    let mut f = field("abc", 2);
    f.reset_cursor();
    assert_eq!(f, field("abc", 0));
}

#[test]
fn cloning_a_field_keeps_text_and_caret() {
    let f = field("abc", 2);
    assert_eq!(f.clone(), f);
}
