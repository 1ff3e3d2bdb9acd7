//! Tests for the cursor-accurate, multi-byte-safe text editor.

use mantra::cursored::CursoredString;

#[test]
fn starts_empty() {
    let cs = CursoredString::new();
    assert_eq!(cs.as_str(), "");
    assert_eq!(cs.cursor_index(), 0);
    assert_eq!(cs.char_count(), 0);
    assert!(!cs.is_overwriting());
}

#[test]
fn insert_advances_cursor() {
    let mut cs = CursoredString::new();
    cs.insert('a');
    cs.insert('b');
    cs.insert('c');
    assert_eq!(cs.as_str(), "abc");
    assert_eq!(cs.cursor_index(), 3);
}

#[test]
fn insert_in_middle_shifts_tail() {
    let mut cs = CursoredString::new();
    cs.insert('a');
    cs.insert('c');
    cs.prev();
    cs.insert('b');
    assert_eq!(cs.as_str(), "abc");
    assert_eq!(cs.cursor_index(), 2);
}

#[test]
fn round_trip_restores_buffer_and_cursor() {
    // Repeated insert followed by the same number of remove_behind restores
    // the original buffer and cursor, for a mix of positions.
    let mut cs = CursoredString::new();
    cs.insert('x');
    cs.insert('y');
    cs.prev();
    let before_text = cs.as_str().to_string();
    let before_cursor = cs.cursor_index();
    for c in ['h', 'é', '日', 'z'] {
        cs.insert(c);
    }
    for _ in 0..4 {
        cs.remove_behind();
    }
    assert_eq!(cs.as_str(), before_text);
    assert_eq!(cs.cursor_index(), before_cursor);
}

#[test]
fn multibyte_insert_keeps_utf8_boundaries() {
    let mut cs = CursoredString::new();
    for c in ['a', 'é', '日', '🦀', 'b'] {
        cs.insert(c);
    }
    cs.prev();
    cs.prev();
    cs.insert('ß');
    let bytes = cs.as_bytes();
    assert!(std::str::from_utf8(bytes).is_ok());
    assert_eq!(cs.as_str(), "aé日ß🦀b");
    assert_eq!(cs.char_count(), 6);
    // Every position the editor can put the cursor at is a character boundary.
    let s = cs.as_str();
    let mut byte_positions = vec![0];
    let mut acc = 0;
    for ch in s.chars() {
        acc += ch.len_utf8();
        byte_positions.push(acc);
    }
    for p in byte_positions {
        assert!(s.is_char_boundary(p));
    }
}

#[test]
fn remove_behind_at_start_is_noop() {
    let mut cs = CursoredString::new();
    cs.insert('a');
    cs.prev();
    cs.remove_behind();
    assert_eq!(cs.as_str(), "a");
    assert_eq!(cs.cursor_index(), 0);
}

#[test]
fn remove_ahead_at_end_is_noop() {
    let mut cs = CursoredString::new();
    cs.insert('a');
    cs.remove_ahead();
    assert_eq!(cs.as_str(), "a");
    assert_eq!(cs.cursor_index(), 1);
}

#[test]
fn remove_ahead_deletes_at_cursor_without_moving() {
    let mut cs = CursoredString::new();
    for c in ['a', 'é', 'c'] {
        cs.insert(c);
    }
    cs.prev();
    cs.prev();
    cs.remove_ahead();
    assert_eq!(cs.as_str(), "ac");
    assert_eq!(cs.cursor_index(), 1);
}

#[test]
fn cursor_clamps_at_both_ends() {
    let mut cs = CursoredString::new();
    cs.prev();
    assert_eq!(cs.cursor_index(), 0);
    cs.insert('é');
    cs.next();
    cs.next();
    assert_eq!(cs.cursor_index(), 1);
    cs.prev();
    assert_eq!(cs.cursor_index(), 0);
}

#[test]
fn overwrite_replaces_in_middle() {
    let mut cs = CursoredString::new();
    for c in ['a', 'b', 'c'] {
        cs.insert(c);
    }
    cs.prev();
    cs.prev();
    cs.toggle_overwrite();
    assert!(cs.is_overwriting());
    cs.insert('é');
    assert_eq!(cs.as_str(), "aéc");
    assert_eq!(cs.char_count(), 3);
    assert_eq!(cs.cursor_index(), 2);
}

#[test]
fn overwrite_appends_at_end() {
    let mut cs = CursoredString::new();
    for c in ['a', 'b'] {
        cs.insert(c);
    }
    cs.toggle_overwrite();
    cs.insert('c');
    assert_eq!(cs.as_str(), "abc");
    assert_eq!(cs.char_count(), 3);
    assert_eq!(cs.cursor_index(), 3);
}

#[test]
fn toggle_overwrite_keeps_cursor_and_text() {
    let mut cs = CursoredString::new();
    cs.insert('a');
    cs.prev();
    cs.toggle_overwrite();
    assert_eq!(cs.as_str(), "a");
    assert_eq!(cs.cursor_index(), 0);
    cs.toggle_overwrite();
    assert!(!cs.is_overwriting());
}

#[test]
fn from_text_and_into_text() {
    let cs = CursoredString::from_text(String::from("héllo"));
    assert_eq!(cs.cursor_index(), 0);
    assert_eq!(cs.char_count(), 5);
    let s = cs.into_text();
    assert_eq!(s, "héllo");
}
