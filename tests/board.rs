use senarai::app::{App, InputMode, Rect, StoreOp};
use senarai::config::Config;
use senarai::consts::ERROR_POPUP_DURATION;
use senarai::input::{
    clamp_cursor, handle_key, handle_mouse, InputResult, Key, KeyPress, MouseEvent, MouseKind,
};
use senarai::text::is_blank;
use senarai::ui::{ellipsize, get_mouse_selection, title_limit};
use senarai::{Entry, Status};

fn entry(id: u128, title: &str, status: Status) -> Entry {
    Entry { id, title: title.to_string(), season: 1, episode: 0, status }
}

fn board(items: &[(&str, Status)]) -> App {
    let entries = items
        .iter()
        .enumerate()
        .map(|(i, (t, s))| entry(i as u128, t, *s))
        .collect();
    App::new(entries, Config { storage_path: "nowhere".to_string() })
}

fn store_accepts_all(app: &mut App) {
    for op in app.take_pending() {
        app.finish_write(&op, Ok(()));
    }
}

fn press(code: Key) -> KeyPress {
    KeyPress { code, shift: false }
}

fn shift(code: Key) -> KeyPress {
    KeyPress { code, shift: true }
}

fn type_text(app: &mut App, text: &str) {
    for c in text.chars() {
        assert_eq!(handle_key(press(Key::Char(c)), app), InputResult::Success);
    }
}

fn columns() -> Vec<Rect> {
    vec![
        Rect { x: 0, y: 0, width: 10, height: 20 },
        Rect { x: 10, y: 0, width: 10, height: 20 },
        Rect { x: 20, y: 0, width: 10, height: 20 },
    ]
}

#[test]
fn status_cycles_both_ways() {
    for s in [Status::Planning, Status::Watching, Status::Completed] {
        assert_eq!(s.next().prev(), s);
        assert_eq!(s.prev().next(), s);
        assert_eq!(s.next().next().next(), s);
    }
    assert_eq!(Status::Planning.next(), Status::Watching);
    assert_eq!(Status::Planning.prev(), Status::Completed);
}

#[test]
fn status_names_round_trip() {
    for s in [Status::Planning, Status::Watching, Status::Completed] {
        assert_eq!(Status::from_name(&s.to_string()), s);
    }
    assert_eq!(Status::Completed.to_string(), "Completed");
    assert_eq!(Status::from_name(&"watching".to_string()), Status::Planning);
}

#[test]
fn duplicate_title_is_refused() {
    let mut app = board(&[("A", Status::Planning), ("B", Status::Watching), ("C", Status::Completed)]);
    app.selected_index = 0;
    app.add_entry("A".to_string());
    assert_eq!(app.entry.len(), 3);
    let msg = app.error.clone().unwrap();
    assert!(msg.contains("A"));
    assert_eq!(msg, "Entry with title 'A' already exists!");
    assert!(app.pending.is_empty());
    assert_eq!(app.selected_index, 0);
}

#[test]
fn title_match_is_case_sensitive() {
    let mut app = board(&[("A", Status::Planning)]);
    app.add_entry("a".to_string());
    assert_eq!(app.entry.len(), 1);
    assert!(app.error.is_none());
    assert!(matches!(&app.pending[0], StoreOp::Add(e) if e.title == "a"));
    store_accepts_all(&mut app);
    assert_eq!(app.entry.len(), 2);
    assert_eq!(app.selected_index, 1);
}

#[test]
fn decrement_floors_at_season_one_episode_zero() {
    let mut app = board(&[("A", Status::Watching)]);
    app.prev_episode();
    assert_eq!((app.entry[0].season, app.entry[0].episode), (1, 0));
}

#[test]
fn decrement_from_episode_zero_goes_back_a_season() {
    let mut app = board(&[("A", Status::Watching)]);
    app.entry[0].season = 2;
    app.entry[0].episode = 0;
    app.prev_episode();
    assert_eq!((app.entry[0].season, app.entry[0].episode), (1, 0));
    app.entry[0].episode = 7;
    app.prev_episode();
    assert_eq!((app.entry[0].season, app.entry[0].episode), (1, 6));
}

#[test]
fn episode_count_stays_at_its_maximum() {
    let mut app = board(&[("A", Status::Watching)]);
    app.entry[0].episode = u32::MAX;
    app.next_episode();
    assert_eq!(app.entry[0].episode, u32::MAX);
    app.next_season();
    assert_eq!((app.entry[0].season, app.entry[0].episode), (2, 0));
}

#[test]
fn error_expires_after_display_time() {
    let mut app = board(&[]);
    app.tick(100);
    app.post_error("boom".to_string());
    assert_eq!(app.last_error_time, Some(100));
    app.tick(100 + ERROR_POPUP_DURATION);
    assert!(app.error.is_some());
    app.tick(100 + ERROR_POPUP_DURATION + 1);
    assert!(app.error.is_none());
    assert!(app.last_error_time.is_none());
}

#[test]
fn store_failure_message() {
    let mut app = board(&[("A", Status::Planning)]);
    app.tick(5);
    app.report_store_failure(&StoreOp::Delete(3), "disk full");
    assert_eq!(app.error.as_deref(), Some("Failed to delete entry from database: disk full"));
    assert_eq!(app.last_error_time, Some(5));
    assert_eq!(app.entry.len(), 1);
}

#[test]
fn forward_then_backward_returns() {
    let mut app = board(&[
        ("A", Status::Planning),
        ("B", Status::Watching),
        ("C", Status::Planning),
        ("D", Status::Completed),
        ("E", Status::Watching),
    ]);
    for start in 0..5 {
        for n in 0..7 {
            app.selected_index = start;
            for _ in 0..n {
                app.next_entry();
            }
            for _ in 0..n {
                app.prev_entry();
            }
            assert_eq!(app.selected_index, start);
        }
    }
}

#[test]
fn navigation_order_walks_columns() {
    let mut app = board(&[
        ("A", Status::Planning),
        ("B", Status::Completed),
        ("C", Status::Planning),
    ]);
    let mut seen = vec![];
    for _ in 0..4 {
        seen.push(app.selected_index);
        app.next_entry();
    }
    assert_eq!(seen, vec![0, 2, 1, 0]);
    app.selected_index = 0;
    app.prev_entry();
    assert_eq!(app.selected_index, 1);
}

#[test]
fn single_column_wraps_onto_itself() {
    let mut app = board(&[("A", Status::Watching), ("B", Status::Watching)]);
    app.selected_index = 1;
    app.next_entry();
    assert_eq!(app.selected_index, 0);
    app.prev_entry();
    assert_eq!(app.selected_index, 1);
}

#[test]
fn column_jump_picks_first_of_next_nonempty() {
    let mut app = board(&[
        ("A", Status::Planning),
        ("B", Status::Completed),
        ("C", Status::Completed),
    ]);
    app.select_next_column();
    assert_eq!(app.selected_index, 1);
    app.select_next_column();
    assert_eq!(app.selected_index, 0);
    app.select_prev_column();
    assert_eq!(app.selected_index, 1);
    let mut lone = board(&[("A", Status::Watching)]);
    lone.select_next_column();
    assert_eq!(lone.selected_index, 0);
}

#[test]
fn navigation_on_empty_board_does_nothing() {
    let mut app = board(&[]);
    app.next_entry();
    app.prev_entry();
    app.select_next_column();
    app.remove_entry();
    assert_eq!(app.selected_index, 0);
    assert!(app.pending.is_empty());
}

#[test]
fn removal_keeps_selection_valid() {
    let mut app = board(&[]);
    app.add_entry("A".to_string());
    app.add_entry("B".to_string());
    app.add_entry("C".to_string());
    store_accepts_all(&mut app);
    assert_eq!(app.selected_index, 2);
    app.remove_entry();
    assert_eq!(app.selected_index, 1);
    assert_eq!(app.entry.len(), 2);
    app.selected_index = 0;
    app.remove_entry();
    assert_eq!(app.selected_index, 0);
    assert_eq!(app.entry[0].title, "B");
    app.remove_entry();
    assert!(app.entry.is_empty());
    assert_eq!(app.selected_index, 0);
}

#[test]
fn new_ids_are_version_four() {
    let mut app = board(&[]);
    app.add_entry("A".to_string());
    app.add_entry("B".to_string());
    store_accepts_all(&mut app);
    let a = app.entry[0].id;
    let b = app.entry[1].id;
    assert_ne!(a, b);
    assert_eq!((a >> 76) & 0xf, 4);
    assert_eq!((b >> 62) & 0x3, 2);
}

#[test]
fn swap_within_column_persists_both() {
    let mut app = board(&[
        ("A", Status::Planning),
        ("B", Status::Watching),
        ("C", Status::Planning),
    ]);
    app.selected_index = 2;
    assert_eq!(handle_key(shift(Key::Up), &mut app), InputResult::Modified);
    assert_eq!(app.entry[0].title, "C");
    assert_eq!(app.entry[2].title, "A");
    assert_eq!(app.selected_index, 0);
    let ops = app.take_pending();
    assert_eq!(ops.len(), 2);
    assert!(matches!(&ops[0], StoreOp::Update(e) if e.title == "A"));
    assert!(matches!(&ops[1], StoreOp::Update(e) if e.title == "C"));
    assert!(app.pending.is_empty());
    app.move_entry_up_in_column();
    assert_eq!(app.entry[0].title, "C");
    app.move_entry_down_in_column();
    assert_eq!(app.entry[2].title, "C");
    assert_eq!(app.selected_index, 2);
}

#[test]
fn shift_right_moves_to_next_status() {
    let mut app = board(&[("A", Status::Completed)]);
    assert_eq!(handle_key(shift(Key::Right), &mut app), InputResult::Modified);
    assert_eq!(app.entry[0].status, Status::Planning);
    assert_eq!(handle_key(shift(Key::Left), &mut app), InputResult::Modified);
    assert_eq!(app.entry[0].status, Status::Completed);
}

#[test]
fn quit_key() {
    let mut app = board(&[("A", Status::Planning)]);
    assert_eq!(handle_key(press(Key::Char('q')), &mut app), InputResult::Quit);
}

#[test]
fn typing_capitalises_words_and_adds() {
    let mut app = board(&[]);
    handle_key(press(Key::Char('a')), &mut app);
    assert_eq!(app.input_mode, InputMode::Adding);
    type_text(&mut app, "the wire");
    assert_eq!(app.input, "The Wire");
    assert_eq!(app.cursor_position, 8);
    assert_eq!(handle_key(press(Key::Enter), &mut app), InputResult::Modified);
    assert_eq!(app.input_mode, InputMode::Normal);
    store_accepts_all(&mut app);
    assert_eq!(app.entry[0].title, "The Wire");
    assert_eq!(app.entry[0].status, Status::Planning);
    assert!(app.input.is_empty());
}

#[test]
fn typing_inserts_at_cursor() {
    let mut app = board(&[]);
    handle_key(press(Key::Char('a')), &mut app);
    type_text(&mut app, "ac");
    handle_key(press(Key::Left), &mut app);
    type_text(&mut app, "b");
    assert_eq!(app.input, "Abc");
    assert_eq!(app.cursor_position, 2);
    handle_key(press(Key::Backspace), &mut app);
    assert_eq!(app.input, "Ac");
    handle_key(press(Key::Delete), &mut app);
    assert_eq!(app.input, "A");
    handle_key(press(Key::Right), &mut app);
    handle_key(press(Key::Right), &mut app);
    assert_eq!(app.cursor_position, 1);
    handle_key(press(Key::Esc), &mut app);
    assert_eq!(app.input_mode, InputMode::Normal);
    assert!(app.input.is_empty());
    assert!(app.entry.is_empty());
}

#[test]
fn uppercase_may_grow() {
    let mut app = board(&[]);
    handle_key(press(Key::Char('a')), &mut app);
    type_text(&mut app, "ß");
    assert_eq!(app.input, "SS");
    assert_eq!(app.cursor_position, 2);
}

#[test]
fn capital_after_unicode_space() {
    let mut app = board(&[]);
    handle_key(press(Key::Char('a')), &mut app);
    type_text(&mut app, "1\u{3000}x");
    assert_eq!(app.input, "1\u{3000}X");
}

#[test]
fn editing_moves_by_grapheme() {
    let mut app = board(&[("Cafe\u{301}", Status::Watching)]);
    handle_key(press(Key::Char('e')), &mut app);
    assert_eq!(app.input_mode, InputMode::Editing);
    assert_eq!(app.cursor_position, 4);
    handle_key(press(Key::Backspace), &mut app);
    assert_eq!(app.input, "Caf");
    assert_eq!(app.cursor_position, 3);
    type_text(&mut app, "e");
    handle_key(press(Key::Enter), &mut app);
    assert_eq!(app.entry[0].title, "Cafe");
    let ops = app.take_pending();
    assert!(matches!(&ops[0], StoreOp::Update(e) if e.title == "Cafe"));
}

#[test]
fn clamp_counts_graphemes() {
    assert_eq!(clamp_cursor(10, "e\u{301}a"), 2);
    assert_eq!(clamp_cursor(1, "abc"), 1);
    assert_eq!(clamp_cursor(3, ""), 0);
}

#[test]
fn blank_means_white_space_only() {
    assert!(is_blank(" \t\u{a0}"));
    assert!(is_blank(""));
    assert!(!is_blank(" x"));
}

#[test]
fn confirm_delete() {
    let mut app = board(&[("A", Status::Planning), ("B", Status::Planning)]);
    handle_key(press(Key::Char('x')), &mut app);
    assert_eq!(app.input_mode, InputMode::ConfirmDelete);
    assert_eq!(handle_key(press(Key::Char('n')), &mut app), InputResult::Success);
    assert_eq!(app.entry.len(), 2);
    handle_key(press(Key::Char('x')), &mut app);
    assert_eq!(handle_key(press(Key::Char('y')), &mut app), InputResult::Modified);
    assert_eq!(app.entry.len(), 1);
    assert_eq!(app.input_mode, InputMode::Normal);
    let ops = app.take_pending();
    assert!(matches!(ops[0], StoreOp::Delete(0)));
}

#[test]
fn drag_and_drop_reassigns_status() {
    let mut app = board(&[
        ("A", Status::Planning),
        ("B", Status::Watching),
        ("C", Status::Planning),
    ]);
    app.column_layout = columns();
    let down = MouseEvent { kind: MouseKind::Down, column: 3, row: 2 };
    assert_eq!(handle_mouse(down, &mut app), InputResult::Success);
    assert_eq!(app.selected_index, 2);
    assert_eq!(app.dragged_entry, Some((2, Status::Planning)));
    let up = MouseEvent { kind: MouseKind::Up, column: 25, row: 40 };
    assert_eq!(handle_mouse(up, &mut app), InputResult::Modified);
    assert_eq!(app.entry[2].status, Status::Completed);
    assert_eq!(app.dragged_entry, None);
    let ops = app.take_pending();
    assert!(matches!(&ops[0], StoreOp::Update(e) if e.title == "C"));
}

#[test]
fn drop_on_same_column_keeps_status() {
    let mut app = board(&[("A", Status::Watching)]);
    app.column_layout = columns();
    handle_mouse(MouseEvent { kind: MouseKind::Down, column: 12, row: 1 }, &mut app);
    assert_eq!(app.dragged_entry, Some((0, Status::Watching)));
    assert_eq!(handle_mouse(MouseEvent { kind: MouseKind::Up, column: 15, row: 9 }, &mut app), InputResult::Modified);
    assert_eq!(app.entry[0].status, Status::Watching);
}

#[test]
fn drop_outside_columns_clears_drag() {
    let mut app = board(&[("A", Status::Watching)]);
    app.column_layout = columns();
    handle_mouse(MouseEvent { kind: MouseKind::Down, column: 12, row: 1 }, &mut app);
    assert_eq!(handle_mouse(MouseEvent { kind: MouseKind::Up, column: 90, row: 1 }, &mut app), InputResult::Success);
    assert_eq!(app.dragged_entry, None);
    assert_eq!(app.entry[0].status, Status::Watching);
}

#[test]
fn press_below_last_entry_selects_nothing() {
    let mut app = board(&[("A", Status::Watching), ("B", Status::Planning)]);
    app.column_layout = columns();
    app.selected_index = 1;
    handle_mouse(MouseEvent { kind: MouseKind::Down, column: 12, row: 5 }, &mut app);
    assert_eq!(app.selected_index, 1);
    assert_eq!(app.dragged_entry, None);
    assert_eq!(app.mouse_pos, (12, 5));
}

#[test]
fn click_on_text_box_moves_cursor() {
    let mut app = board(&[]);
    handle_key(press(Key::Char('a')), &mut app);
    type_text(&mut app, "abcdef");
    app.layout = vec![
        Rect { x: 0, y: 0, width: 40, height: 10 },
        Rect { x: 0, y: 10, width: 40, height: 3 },
    ];
    handle_mouse(MouseEvent { kind: MouseKind::Down, column: 3, row: 11 }, &mut app);
    assert_eq!(app.cursor_position, 2);
    handle_mouse(MouseEvent { kind: MouseKind::Down, column: 30, row: 11 }, &mut app);
    assert_eq!(app.cursor_position, 6);
}

#[test]
fn mouse_selection_reads_pointer() {
    let mut app = board(&[("A", Status::Watching), ("B", Status::Completed), ("C", Status::Watching)]);
    app.column_layout = columns();
    app.mouse_pos = (14, 2);
    assert_eq!(get_mouse_selection(&mut app), Some(2));
    app.mouse_pos = (4, 1);
    assert_eq!(get_mouse_selection(&mut app), None);
    app.mouse_pos = (21, 1);
    assert_eq!(get_mouse_selection(&mut app), Some(1));
}

#[test]
fn long_titles_are_cut_with_ellipsis() {
    assert_eq!(title_limit(30, 1, 12), 30 - 9 - 2);
    assert_eq!(title_limit(10, 100, 100), 0);
    assert_eq!(ellipsize("Breaking Bad", 20), "Breaking Bad");
    assert_eq!(ellipsize("Breaking Bad", 8), "Break...");
    assert_eq!(ellipsize("Breaking Bad", 2), "...");
    assert_eq!(ellipsize("Ünïcödé", 6), "Ünï...");
}

#[test]
fn empty_title_is_allowed_once() {
    let mut app = board(&[]);
    handle_key(press(Key::Char('a')), &mut app);
    assert_eq!(handle_key(press(Key::Enter), &mut app), InputResult::Modified);
    store_accepts_all(&mut app);
    assert_eq!(app.entry.len(), 1);
    assert_eq!(app.entry[0].title, "");
    app.add_entry(String::new());
    assert_eq!(app.entry.len(), 1);
    assert_eq!(app.error.as_deref(), Some("Entry with title '' already exists!"));
}

#[test]
fn refused_add_leaves_board_unchanged() {
    let mut app = board(&[("A", Status::Planning), ("B", Status::Watching)]);
    app.selected_index = 1;
    app.tick(7);
    app.add_entry("C".to_string());
    let ops = app.take_pending();
    assert_eq!(ops.len(), 1);
    app.finish_write(&ops[0], Err("database is locked".to_string()));
    assert_eq!(app.entry.len(), 2);
    assert_eq!(app.selected_index, 1);
    assert_eq!(app.error.as_deref(), Some("Failed to add entry to database: database is locked"));
    assert_eq!(app.last_error_time, Some(7));
}

#[test]
fn refused_update_keeps_change_in_memory() {
    let mut app = board(&[("A", Status::Planning)]);
    app.next_episode();
    let ops = app.take_pending();
    app.finish_write(&ops[0], Err("disk full".to_string()));
    assert_eq!(app.entry[0].episode, 1);
    assert_eq!(app.error.as_deref(), Some("Failed to update entry in database: disk full"));
}

#[test]
fn waiting_addition_blocks_same_title() {
    let mut app = board(&[]);
    app.add_entry("A".to_string());
    app.add_entry("A".to_string());
    assert_eq!(app.pending.len(), 1);
    assert_eq!(app.error.as_deref(), Some("Entry with title 'A' already exists!"));
}

#[test]
fn delete_past_end_clamps_cursor() {
    let mut app = board(&[]);
    handle_key(press(Key::Char('a')), &mut app);
    type_text(&mut app, "ab");
    app.cursor_position = 9;
    handle_key(press(Key::Delete), &mut app);
    assert_eq!(app.input, "Ab");
    assert_eq!(app.cursor_position, 2);
    handle_key(press(Key::Left), &mut app);
    handle_key(press(Key::Delete), &mut app);
    assert_eq!(app.input, "A");
    assert_eq!(app.cursor_position, 1);
}

#[test]
fn white_space_matches_std() {
    for u in 0..=0x10ffffu32 {
        if let Some(c) = char::from_u32(u) {
            let mut s = String::new();
            s.push(c);
            assert_eq!(is_blank(&s), c.is_whitespace(), "U+{:04X}", u);
        }
    }
}

#[test]
fn keyed_add_refuses_identifier_in_use() {
    let mut app = board(&[("A", Status::Planning)]);
    app.add_entry_keyed("B".to_string(), 0);
    assert!(app.pending.is_empty());
    assert_eq!(app.error.as_deref(), Some("Failed to add entry: no unused identifier"));
    app.add_entry_keyed("B".to_string(), 9);
    assert!(matches!(&app.pending[0], StoreOp::Add(e) if e.id == 9 && e.title == "B"));
    app.add_entry_keyed("C".to_string(), 9);
    assert_eq!(app.pending.len(), 1);
}

#[test]
fn first_unused_skips_ids_in_use() {
    let mut app = board(&[("A", Status::Planning), ("B", Status::Planning)]);
    app.add_entry_keyed("C".to_string(), 7);
    assert_eq!(app.first_unused(&vec![1, 7, 0, 5, 6]), Some(5));
    assert_eq!(app.first_unused(&vec![0, 1, 7]), None);
    assert_eq!(app.first_unused(&vec![]), None);
}

#[test]
fn drawn_add_uses_first_free_draw() {
    let mut app = board(&[("A", Status::Planning)]);
    app.add_entry_drawn("B".to_string(), &vec![0, 4, 8]);
    assert!(matches!(&app.pending[0], StoreOp::Add(e) if e.id == 4));
    app.add_entry_drawn("C".to_string(), &vec![0, 4]);
    assert_eq!(app.pending.len(), 1);
    assert_eq!(app.error.as_deref(), Some("Failed to add entry: no unused identifier"));
    app.add_entry_drawn("A".to_string(), &vec![8]);
    assert_eq!(app.error.as_deref(), Some("Entry with title 'A' already exists!"));
    store_accepts_all(&mut app);
    assert_eq!(app.entry[1].id, 4);
    assert_eq!(app.selected_index, 1);
}
