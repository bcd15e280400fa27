use matrix_tui::app::{handle_events, one_line_input_block, App, InputMode};
use matrix_tui::event::{KeyCode, KeyEvent, KeyEventKind};
use matrix_tui::focus::FocusArea;
use matrix_tui::geometry::Rect;
use matrix_tui::text::{char_count, insert_char, mask, message};

fn typed(text: &str) -> App {
    let mut app = App::new();
    for c in text.chars() {
        app.enter_char(c);
    }
    app
}

fn press(app: &mut App, code: KeyCode) {
    handle_events(app, KeyEvent::press(code));
}

#[test]
fn backspace_down_to_the_empty_text() {
    let mut app = typed("abc");
    assert_eq!(app.get_current_value(), "abc");
    assert_eq!(app.char_index(), 3);
    app.delete_char();
    assert_eq!(app.get_current_value(), "ab");
    assert_eq!(app.char_index(), 2);
    app.delete_char();
    app.delete_char();
    assert_eq!(app.get_current_value(), "");
    assert_eq!(app.char_index(), 0);
    app.delete_char();
    assert_eq!(app.get_current_value(), "");
    assert_eq!(app.char_index(), 0);
}

#[test]
fn editing_starts_at_the_end() {
    let mut app = App::new();
    app.set_input_data(FocusArea::ServerInput, "hello");
    assert_eq!(app.char_index(), 0);
    press(&mut app, KeyCode::Char('i'));
    assert_eq!(app.input_mode(), InputMode::Editing);
    assert_eq!(app.char_index(), 5);
    assert_eq!(app.get_current_value(), "hello");
}

#[test]
fn enter_then_delete_restores() {
    for text in ["", "a", "matrix.org", "zażółć"] {
        let mut app = typed(text);
        let cursor = app.char_index();
        app.enter_char('x');
        assert_eq!(app.char_index(), cursor + 1);
        app.delete_char();
        assert_eq!(app.get_current_value(), text);
        assert_eq!(app.char_index(), cursor);
    }
    // The same holds with the cursor inside the text.
    let mut app = typed("matrix");
    app.move_cursor_left();
    app.move_cursor_left();
    app.enter_char('x');
    assert_eq!(app.get_current_value(), "matrxix");
    app.delete_char();
    assert_eq!(app.get_current_value(), "matrix");
    assert_eq!(app.char_index(), 4);
}

#[test]
fn cursor_stays_in_the_text() {
    let mut app = typed("abc");
    for _ in 0..10 {
        app.move_cursor_right();
        assert_eq!(app.char_index(), 3);
    }
    for expected in [2, 1, 0, 0, 0] {
        app.move_cursor_left();
        assert_eq!(app.char_index(), expected);
    }
    for expected in [1, 2, 3, 3] {
        app.move_cursor_right();
        assert_eq!(app.char_index(), expected);
    }
    let mut empty = App::new();
    empty.move_cursor_left();
    assert_eq!(empty.char_index(), 0);
    empty.move_cursor_right();
    assert_eq!(empty.char_index(), 0);
}

#[test]
fn characters_go_in_at_the_cursor() {
    let mut app = typed("ac");
    app.move_cursor_left();
    app.enter_char('b');
    assert_eq!(app.get_current_value(), "abc");
    assert_eq!(app.char_index(), 2);
    app.move_cursor_left();
    app.move_cursor_left();
    app.enter_char('_');
    assert_eq!(app.get_current_value(), "_abc");
    assert_eq!(app.char_index(), 1);
}

#[test]
fn backspace_inside_the_text() {
    let mut app = typed("abcd");
    app.move_cursor_left();
    app.delete_char();
    assert_eq!(app.get_current_value(), "abd");
    assert_eq!(app.char_index(), 2);
    app.move_cursor_left();
    app.move_cursor_left();
    app.delete_char();
    assert_eq!(app.get_current_value(), "abd");
    assert_eq!(app.char_index(), 0);
}

#[test]
fn a_character_is_one_step_whatever_its_bytes() {
    let mut app = typed("aé中🦀");
    assert_eq!(app.char_index(), 4);
    app.move_cursor_left();
    app.delete_char();
    assert_eq!(app.get_current_value(), "aé🦀");
    assert_eq!(app.char_index(), 2);
    app.enter_char('ß');
    assert_eq!(app.get_current_value(), "aéß🦀");
    assert_eq!(app.char_index(), 3);
    app.move_cursor_rightest();
    assert_eq!(app.char_index(), 4);
}

#[test]
fn clear_removes_the_text() {
    let mut app = typed("secret");
    app.set_input_data(FocusArea::UsernameInput, "alice");
    app.clear_current_content();
    assert_eq!(app.get_current_value(), "");
    assert_eq!(app.char_index(), 0);
    assert_eq!(app.get_input_data(&FocusArea::UsernameInput), "alice");
    app.enter_char('n');
    assert_eq!(app.get_current_value(), "n");
    assert_eq!(app.char_index(), 1);
}

#[test]
fn cursor_helpers() {
    let mut app = typed("hello");
    assert_eq!(app.clamp_cursor(0), 0);
    assert_eq!(app.clamp_cursor(5), 5);
    assert_eq!(app.clamp_cursor(6), 5);
    assert_eq!(app.clamp_cursor(usize::MAX), 5);
    app.reset_cursor();
    assert_eq!(app.char_index(), 0);
    app.move_cursor_rightest();
    assert_eq!(app.char_index(), 5);
}

#[test]
fn each_field_has_its_own_text() {
    let mut app = typed("matrix.org");
    app.set_current_focus(FocusArea::UsernameInput);
    // The cursor is brought back into the text of the field that gets the focus.
    assert_eq!(app.char_index(), 0);
    assert_eq!(app.get_current_value(), "");
    app.enter_char('b');
    app.enter_char('o');
    app.enter_char('b');
    assert_eq!(app.get_input_data(&FocusArea::ServerInput), "matrix.org");
    assert_eq!(app.get_input_data(&FocusArea::UsernameInput), "bob");
    assert_eq!(app.get_input_data(&FocusArea::PasswordInput), "");
    app.set_current_focus(FocusArea::ServerInput);
    assert_eq!(app.char_index(), 3);
    app.set_input_data(FocusArea::ServerInput, "m");
    assert_eq!(app.char_index(), 1);
}

#[test]
fn editing_mode_keys() {
    let mut app = App::new();
    press(&mut app, KeyCode::Char('i'));
    for c in "helo".chars() {
        press(&mut app, KeyCode::Char(c));
    }
    press(&mut app, KeyCode::Left);
    press(&mut app, KeyCode::Char('l'));
    assert_eq!(app.get_current_value(), "hello");
    assert_eq!(app.char_index(), 4);
    press(&mut app, KeyCode::Right);
    press(&mut app, KeyCode::Right);
    assert_eq!(app.char_index(), 5);
    press(&mut app, KeyCode::Backspace);
    assert_eq!(app.get_current_value(), "hell");
    // The letters that act in normal mode are text here.
    press(&mut app, KeyCode::Char('q'));
    press(&mut app, KeyCode::Char('i'));
    assert_eq!(app.get_current_value(), "hellqi");
    assert!(!app.should_exit());
    // Keys without a meaning in this mode change nothing.
    for code in [KeyCode::Up, KeyCode::Down, KeyCode::Tab, KeyCode::Other] {
        press(&mut app, code);
    }
    assert_eq!(app.get_current_value(), "hellqi");
    assert_eq!(app.char_index(), 6);
    assert_eq!(app.current_focus(), FocusArea::ServerInput);
    assert_eq!(app.input_mode(), InputMode::Editing);
}

#[test]
fn control_u_and_control_h_clear_the_line() {
    for letter in ['u', 'h'] {
        let mut app = App::new();
        press(&mut app, KeyCode::Char('i'));
        for c in "example.org".chars() {
            press(&mut app, KeyCode::Char(c));
        }
        handle_events(&mut app, KeyEvent::with_control(KeyCode::Char(letter)));
        assert_eq!(app.get_current_value(), "");
        assert_eq!(app.char_index(), 0);
        assert_eq!(app.input_mode(), InputMode::Editing);
    }
    // With Control, any other letter is typed, and the other keys act as ever.
    let mut app = App::new();
    press(&mut app, KeyCode::Char('i'));
    press(&mut app, KeyCode::Char('a'));
    handle_events(&mut app, KeyEvent::with_control(KeyCode::Char('k')));
    assert_eq!(app.get_current_value(), "ak");
    handle_events(&mut app, KeyEvent::with_control(KeyCode::Left));
    assert_eq!(app.char_index(), 1);
    // Without Control the two letters are text.
    press(&mut app, KeyCode::Char('u'));
    press(&mut app, KeyCode::Char('h'));
    assert_eq!(app.get_current_value(), "auhk");
    // In normal mode the line is not cleared.
    press(&mut app, KeyCode::Esc);
    handle_events(&mut app, KeyEvent::with_control(KeyCode::Char('u')));
    assert_eq!(app.get_current_value(), "auhk");
}

#[test]
fn only_a_press_counts() {
    for kind in [KeyEventKind::Release, KeyEventKind::Repeat] {
        let mut app = App::new();
        for code in [KeyCode::Char('q'), KeyCode::Char('i'), KeyCode::Enter, KeyCode::Tab] {
            let request = handle_events(&mut app, KeyEvent { code, control: false, kind });
            assert!(request.is_none());
        }
        assert!(!app.should_exit());
        assert_eq!(app.input_mode(), InputMode::Normal);
    }
}

#[test]
fn password_is_drawn_as_glyphs() {
    let rect = Rect::new(4, 6, 30, 3);
    for password in ["", "x", "hunter2", "pässwörd", "密码🔑"] {
        let mut app = App::new();
        app.set_input_data(FocusArea::PasswordInput, password);
        let block = one_line_input_block(&mut app, FocusArea::PasswordInput, rect);
        assert_eq!(block.value, "*".repeat(password.chars().count()));
        // The text itself is as it was.
        assert_eq!(app.get_input_data(&FocusArea::PasswordInput), password);
    }
    // The other fields are drawn as they are.
    let mut app = App::new();
    app.set_input_data(FocusArea::UsernameInput, "älice");
    let block = one_line_input_block(&mut app, FocusArea::UsernameInput, rect);
    assert_eq!(block.value, "älice");
}

#[test]
fn input_block_registers_and_places_the_cursor() {
    let rect = Rect::new(10, 7, 60, 3);
    let mut app = typed("matrix.org");
    // Normal mode: the focused field is marked and shows no cursor.
    let block = one_line_input_block(&mut app, FocusArea::ServerInput, rect);
    assert!(block.focused);
    assert_eq!(block.cursor, None);
    assert_eq!(block.value, "matrix.org");
    assert_eq!(app.focus_area_positions().lookup(FocusArea::ServerInput), Some(rect));
    // Editing mode: the cursor stands two cells and the cursor to the right.
    press(&mut app, KeyCode::Char('i'));
    let block = one_line_input_block(&mut app, FocusArea::ServerInput, rect);
    assert_eq!(block.cursor, Some((22, 8)));
    press(&mut app, KeyCode::Left);
    press(&mut app, KeyCode::Left);
    press(&mut app, KeyCode::Left);
    let block = one_line_input_block(&mut app, FocusArea::ServerInput, rect);
    assert_eq!(block.cursor, Some((19, 8)));
    // A field without the focus shows none.
    let other = one_line_input_block(&mut app, FocusArea::UsernameInput, Rect::new(10, 11, 60, 3));
    assert!(!other.focused);
    assert_eq!(other.cursor, None);
    assert_eq!(app.focus_area_positions().len(), 2);
    // At the edge of the grid the cell is the last one.
    let block = one_line_input_block(
        &mut app,
        FocusArea::ServerInput,
        Rect::new(u16::MAX - 3, u16::MAX, 1, 1),
    );
    assert_eq!(block.cursor, Some((u16::MAX, u16::MAX)));
}

#[test]
fn text_helpers() {
    assert_eq!(char_count(""), 0);
    assert_eq!(char_count("añb"), 3);
    assert_eq!(insert_char("", 0, 'a'), "a");
    assert_eq!(insert_char("bc", 0, 'a'), "abc");
    assert_eq!(insert_char("ac", 1, 'b'), "abc");
    assert_eq!(insert_char("äö", 2, 'ü'), "äöü");
    assert_eq!(insert_char("äö", 9, 'ü'), "äöü");
    assert_eq!(mask(""), "");
    assert_eq!(mask("abc"), "***");
    assert_eq!(mask("äöü"), "***");
    assert_eq!(message("Failed to login: ", "timeout"), "Failed to login: timeout");
}
