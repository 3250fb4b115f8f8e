use baud_boss::input_editor::InputEditor;

fn typed(text: &str) -> InputEditor {
    let mut e = InputEditor::new();
    for c in text.chars() {
        e.insert(c);
    }
    e
}

#[test]
fn typing_appends_and_keeps_the_caret_at_the_end() {
    let e = typed("hello");
    assert_eq!(e.text(), "hello");
    assert_eq!(e.cursor(), None);
}

#[test]
fn typing_inside_the_draft_moves_the_caret() {
    let mut e = typed("hllo");
    e.move_home();
    assert_eq!(e.cursor(), Some(0));
    e.move_right();
    e.insert('e');
    assert_eq!(e.text(), "hello");
    assert_eq!(e.cursor(), Some(2));
}

#[test]
fn caret_moves_and_stops_at_the_ends() {
    let mut e = typed("ab");
    e.move_left();
    assert_eq!(e.cursor(), Some(1));
    e.move_left();
    e.move_left();
    assert_eq!(e.cursor(), Some(0));
    e.move_right();
    assert_eq!(e.cursor(), Some(1));
    e.move_right();
    assert_eq!(e.cursor(), None);
    e.move_right();
    assert_eq!(e.cursor(), None);
    e.move_home();
    e.move_end();
    assert_eq!(e.cursor(), None);
}

#[test]
fn home_on_an_empty_draft_keeps_the_caret_at_the_end() {
    let mut e = InputEditor::new();
    e.move_home();
    e.move_left();
    assert_eq!(e.cursor(), None);
}

#[test]
fn backspace_removes_before_the_caret() {
    let mut e = typed("abc");
    e.delete_backward();
    assert_eq!(e.text(), "ab");
    e.move_left();
    e.delete_backward();
    assert_eq!(e.text(), "b");
    assert_eq!(e.cursor(), Some(0));
    e.delete_backward();
    assert_eq!(e.text(), "b");
    let mut empty = InputEditor::new();
    empty.delete_backward();
    assert_eq!(empty.text(), "");
}

#[test]
fn delete_removes_at_the_caret_and_ends_at_the_end() {
    let mut e = typed("abc");
    e.delete_forward();
    assert_eq!(e.text(), "abc");
    e.move_left();
    e.move_left();
    assert_eq!(e.cursor(), Some(1));
    e.delete_forward();
    assert_eq!(e.text(), "ac");
    assert_eq!(e.cursor(), Some(1));
    e.delete_forward();
    assert_eq!(e.text(), "a");
    assert_eq!(e.cursor(), None);
}

#[test]
fn word_delete_leaves_a_trailing_space() {
    let mut e = typed("hello world  ");
    e.delete_word_backward();
    assert_eq!(e.text(), "hello ");
    e.delete_word_backward();
    assert_eq!(e.text(), "");
    let mut single = typed("single");
    single.delete_word_backward();
    assert_eq!(single.text(), "");
    let mut three = typed("a b c");
    three.move_home();
    three.delete_word_backward();
    assert_eq!(three.text(), "a b ");
    assert_eq!(three.cursor(), None);
}

#[test]
fn recall_steps_back_and_returns_to_the_draft() {
    let mut e = typed("one");
    e.commit_sent();
    for c in "two".chars() {
        e.insert(c);
    }
    e.commit_sent();
    for c in "dra".chars() {
        e.insert(c);
    }
    e.recall_older();
    assert_eq!(e.text(), "two");
    assert_eq!(e.history_index(), Some(1));
    e.recall_older();
    assert_eq!(e.text(), "one");
    assert_eq!(e.history_index(), Some(0));
    e.recall_older();
    assert_eq!(e.text(), "one");
    assert_eq!(e.history_index(), Some(0));
    e.recall_newer();
    assert_eq!(e.text(), "two");
    e.recall_newer();
    assert_eq!(e.text(), "dra");
    assert_eq!(e.history_index(), None);
    e.recall_newer();
    assert_eq!(e.text(), "dra");
}

#[test]
fn recall_with_no_history_changes_nothing() {
    let mut e = typed("x");
    e.recall_older();
    assert_eq!(e.text(), "x");
    assert_eq!(e.history_index(), None);
    e.recall_newer();
    assert_eq!(e.text(), "x");
}

#[test]
fn sending_records_the_draft_without_line_ending() {
    let mut e = typed("ping");
    assert_eq!(e.outbound_bytes(&[13, 10]), b"ping\r\n".to_vec());
    e.commit_sent();
    assert_eq!(e.text(), "");
    assert_eq!(e.cursor(), None);
    assert_eq!(e.history_len(), 1);
    assert_eq!(e.history_entry(0), "ping");
}

#[test]
fn empty_draft_sends_only_the_line_ending() {
    let e = InputEditor::new();
    assert_eq!(e.outbound_bytes(&[10]), vec![10]);
}

#[test]
fn outbound_bytes_are_utf8() {
    let e = typed("\u{e9}\u{20ac}");
    assert_eq!(e.outbound_bytes(&[]), "\u{e9}\u{20ac}".as_bytes().to_vec());
    assert_eq!(e.text_bytes(), vec![0xc3, 0xa9, 0xe2, 0x82, 0xac]);
}

#[test]
fn caret_is_drawn_where_it_stands() {
    let mut e = typed("ab");
    assert_eq!(e.text_with_caret('_'), "ab_");
    e.move_left();
    assert_eq!(e.text_with_caret('|'), "a|b");
}

#[test]
fn word_delete_stops_at_any_white_space() {
    let mut e = typed("key\u{3000}value\t\u{a0}");
    e.delete_word_backward();
    assert_eq!(e.text(), "key ");
    let mut tab = typed("a\tb");
    tab.delete_word_backward();
    assert_eq!(tab.text(), "a ");
}
