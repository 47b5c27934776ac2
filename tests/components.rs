use restop::input::{Input, InputKey, InputMove};
use restop::lines_state::LinesVerticalState;

fn typed(s: &str) -> Input {
    let mut i = Input::new();
    for c in s.chars() {
        assert!(i.handle_key(InputKey::Char(c)));
    }
    i
}

#[test]
fn input_typing_and_editing() {
    let mut i = typed("abc");
    assert_eq!(i.get_input(), "abc");
    assert_eq!(i.cursor_position(), 3);
    assert!(i.handle_key(InputKey::Left));
    assert!(i.handle_key(InputKey::Backspace));
    assert_eq!(i.get_input(), "ac");
    assert_eq!(i.cursor_position(), 1);
    assert!(i.handle_key(InputKey::Char('x')));
    assert_eq!(i.get_input(), "axc");
    assert!(!i.handle_key(InputKey::Other));
    assert_eq!(i.get_input(), "axc");
}

#[test]
fn input_backspace_at_start_does_nothing() {
    let mut i = typed("ab");
    i.handle_key(InputKey::Left);
    i.handle_key(InputKey::Left);
    i.handle_key(InputKey::Left);
    assert_eq!(i.cursor_position(), 0);
    i.handle_key(InputKey::Backspace);
    assert_eq!(i.get_input(), "ab");
}

#[test]
fn input_cursor_stays_in_text() {
    let mut i = typed("é");
    i.handle_key(InputKey::Right);
    assert_eq!(i.cursor_position(), 1);
    assert_eq!(i.get_input(), "é");
}

#[test]
fn input_scrolls_to_follow_cursor() {
    let mut i = typed("abcdefghij");
    i.scroll_into_view(4);
    assert_eq!(i.show_start(), 6);
    assert_eq!(i.visible_text(), "ghij");
    i.handle_key(InputKey::Home);
    i.scroll_into_view(4);
    assert_eq!(i.cursor_position(), 0);
    assert_eq!(i.show_start(), 0);
    i.handle_key(InputKey::End);
    i.scroll_into_view(4);
    assert_eq!(i.cursor_position(), 9);
    assert_eq!(i.show_start(), 5);
    let _ = InputMove::Nil;
}

#[test]
fn lines_focus_moves_and_scrolls() {
    let mut s = LinesVerticalState::new();
    s.update_view_height(5);
    s.update_end(20);
    assert_eq!(s.show_end(), 5);
    for _ in 0..2 {
        s.focus_next();
    }
    assert_eq!(s.cur_line(), 2);
    assert_eq!(s.show_start, 1);
    s.focus_next();
    assert_eq!(s.cur_line(), 3);
    assert_eq!(s.show_start, 2);
    s.focus_prev();
    assert_eq!(s.cur_line(), 2);
    assert_eq!(s.show_start, 2);
}

#[test]
fn lines_focus_stops_at_end() {
    let mut s = LinesVerticalState::new();
    s.update_view_height(10);
    s.update_end(3);
    for _ in 0..10 {
        s.focus_next();
    }
    assert_eq!(s.cur_line(), 3);
    assert_eq!(s.show_start, 0);
    for _ in 0..10 {
        s.focus_prev();
    }
    assert_eq!(s.cur_line(), 0);
}

#[test]
fn lines_view_height_keeps_focus_visible() {
    let mut s = LinesVerticalState::new();
    s.update_end(100);
    s.update_view_height(50);
    for _ in 0..40 {
        s.focus_next();
    }
    let cur = s.cur_line();
    s.update_view_height(2);
    assert!(s.show_start <= cur && cur <= s.show_start + 2);
    assert_eq!(s.view_height, 2);
}
