use textbuf::buffer::{Buffer, EditError};

#[test]
fn edit() {
    let mut a = Buffer::from_text("hello");
    a.move_offset(5).unwrap();
    a.replace(5, "World").unwrap();
    let d = Buffer::from_text("helloWorld");
    assert_eq!(a.text, d.text);

    a.replace(10, "").unwrap();
    let c = Buffer::from_text("helloWorld");
    assert_eq!(a.text, c.text);
}

#[test]
fn undo_redo() {
    let mut data = Buffer::from_text("");
    for i in 10..20 {
        data.replace(data.offset, i.to_string().as_str()).unwrap();
    }

    assert_eq!(data.text.as_str(), "10111213141516171819");

    data.undo();
    assert_eq!(data.text.as_str(), "101112131415161718");
    data.undo();
    assert_eq!(data.text.as_str(), "1011121314151617");
    data.redo();
    assert_eq!(data.text.as_str(), "101112131415161718");

    data.replace(data.offset, 11.to_string().as_str()).unwrap();
    assert_eq!(data.text.as_str(), "10111213141516171811");

    data.redo();
    assert_eq!(data.text.as_str(), "10111213141516171811");

    data.undo();
    assert_eq!(data.text.as_str(), "101112131415161718");
    data.redo();
    assert_eq!(data.text.as_str(), "10111213141516171811");
    data.redo();
    assert_eq!(data.text.as_str(), "10111213141516171811");
}

#[test]
fn from_text_puts_cursor_at_end() {
    let b = Buffer::from_text("héllo");
    assert_eq!(b.offset, 6);
    assert!(!b.modified);
    assert!(b.path.is_none());
    assert!(b.history.undo.is_empty());
    assert!(b.history.redo.is_empty());
}

#[test]
fn empty_undo_and_redo_change_nothing() {
    let mut b = Buffer::from_text("abc");
    b.undo();
    assert_eq!(b.text, "abc");
    assert_eq!(b.offset, 3);
    assert!(b.history.undo.is_empty() && b.history.redo.is_empty());
    b.redo();
    assert_eq!(b.text, "abc");
    assert_eq!(b.offset, 3);
    assert!(b.history.undo.is_empty() && b.history.redo.is_empty());
    assert!(!b.modified);
}

#[test]
fn undo_restores_text_and_cursor() {
    let mut b = Buffer::from_text("hello world");
    b.move_offset(11).unwrap();
    b.replace(6, "there").unwrap();
    assert_eq!(b.text, "hello there");
    assert_eq!(b.offset, 11);
    assert!(b.modified);
    b.undo();
    assert_eq!(b.text, "hello world");
    assert_eq!(b.offset, 11);
    assert_eq!(b.history.undo.len(), 0);
    assert_eq!(b.history.redo.len(), 1);
}

#[test]
fn redo_reapplies_undone_edit() {
    let mut b = Buffer::from_text("abcdef");
    b.move_offset(4).unwrap();
    b.replace(1, "XY").unwrap();
    assert_eq!(b.text, "aXYef");
    assert_eq!(b.offset, 3);
    b.undo();
    assert_eq!(b.text, "abcdef");
    assert_eq!(b.offset, 4);
    b.redo();
    assert_eq!(b.text, "aXYef");
    assert_eq!(b.offset, 3);
    assert_eq!(b.history.undo.len(), 1);
    assert!(b.history.redo.is_empty());
}

#[test]
fn new_edit_discards_redo() {
    let mut b = Buffer::from_text("");
    b.replace(0, "one").unwrap();
    b.undo();
    assert_eq!(b.history.redo.len(), 1);
    b.replace(0, "two").unwrap();
    assert!(b.history.redo.is_empty());
    b.redo();
    assert_eq!(b.text, "two");
    assert_eq!(b.offset, 3);
}

#[test]
fn concrete_scenario_digits() {
    let mut b = Buffer::from_text("");
    for i in 10..20 {
        let s = i.to_string();
        b.replace(b.offset, &s).unwrap();
    }
    assert_eq!(b.text, "10111213141516171819");
    b.undo();
    assert_eq!(b.text, "101112131415161718");
    b.undo();
    assert_eq!(b.text, "1011121314151617");
    b.redo();
    assert_eq!(b.text, "101112131415161718");
    b.replace(b.offset, "11").unwrap();
    assert_eq!(b.text, "10111213141516171811");
    b.redo();
    assert_eq!(b.text, "10111213141516171811");
}

#[test]
fn select_orders_the_ends() {
    let mut b = Buffer::from_text("abcdef");
    b.move_offset(3).unwrap();
    assert_eq!(b.select(1), Ok((1, 3)));
    assert_eq!(b.select(5), Ok((3, 5)));
    assert_eq!(b.select(3), Ok((3, 3)));
    assert_eq!(b.select(7), Err(EditError::InvalidOffset));
}

#[test]
fn replace_past_end_is_refused() {
    let mut b = Buffer::from_text("abc");
    assert_eq!(b.replace(4, "x"), Err(EditError::InvalidOffset));
    assert_eq!(b.text, "abc");
    assert!(!b.modified);
    assert!(b.history.undo.is_empty());
}

#[test]
fn replace_inside_a_character_is_refused() {
    let mut b = Buffer::from_text("aé");
    assert_eq!(b.replace(2, "x"), Err(EditError::InvalidOffset));
    assert_eq!(b.text, "aé");
    b.replace(1, "x").unwrap();
    assert_eq!(b.text, "ax");
    assert_eq!(b.offset, 2);
    b.undo();
    assert_eq!(b.text, "aé");
    assert_eq!(b.offset, 3);
}

#[test]
fn move_offset_is_checked() {
    let mut b = Buffer::from_text("aé");
    assert_eq!(b.move_offset(4), Err(EditError::InvalidOffset));
    assert_eq!(b.move_offset(2), Err(EditError::InvalidOffset));
    assert_eq!(b.offset, 3);
    assert_eq!(b.move_offset(1), Ok(()));
    assert_eq!(b.offset, 1);
}

#[test]
fn cursor_at_lower_end_moves_by_length_change() {
    let mut b = Buffer::from_text("abcdef");
    b.move_offset(2).unwrap();
    b.replace(4, "WXYZ").unwrap();
    assert_eq!(b.text, "abWXYZef");
    assert_eq!(b.offset, 4);
}

#[test]
fn replace_that_would_push_cursor_below_start_is_refused() {
    let mut b = Buffer::from_text("abcdef");
    b.move_offset(1).unwrap();
    assert_eq!(b.replace(5, ""), Err(EditError::InvalidOffset));
    assert_eq!(b.text, "abcdef");
    assert_eq!(b.offset, 1);
    assert!(b.history.undo.is_empty());

    let mut a = Buffer::from_text("a");
    a.move_offset(0).unwrap();
    assert_eq!(a.replace(1, ""), Err(EditError::InvalidOffset));
    assert_eq!(a.text, "a");
    assert_eq!(a.offset, 0);
}

#[test]
fn replace_with_cursor_at_lower_end_undoes_exactly() {
    let mut b = Buffer::from_text("abcdef");
    b.move_offset(3).unwrap();
    b.replace(5, "").unwrap();
    assert_eq!(b.text, "abcf");
    assert_eq!(b.offset, 1);
    b.undo();
    assert_eq!(b.text, "abcdef");
    assert_eq!(b.offset, 3);
}

#[test]
fn undo_after_moving_cursor_stops_at_start() {
    let mut b = Buffer::from_text("");
    b.replace(0, "hello").unwrap();
    b.move_offset(0).unwrap();
    b.undo();
    assert_eq!(b.text, "");
    assert_eq!(b.offset, 0);
}

#[test]
fn default_buffer_is_empty() {
    let b = Buffer::default();
    assert_eq!(b.text, "");
    assert_eq!(b.offset, 0);
    assert!(b.path.is_none());
    assert!(!b.modified);
    assert!(b.history.undo.is_empty() && b.history.redo.is_empty());
}

#[test]
fn set_path_records_path() {
    let mut b = Buffer::from_text("x");
    b.set_path("/tmp/x.txt".to_string());
    assert_eq!(b.path.as_deref(), Some("/tmp/x.txt"));
    assert_eq!(b.text, "x");
}
