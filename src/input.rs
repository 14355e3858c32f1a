//! Keys and pointer events, read according to the input mode.
use crate::app::{App, AppView, InputMode, Rect};
use crate::columns::column;
use crate::ids::is_v4;
use crate::text::{
    all_white_space, alphabetic, char_string, graphemes, graphemes_of, insert_at, insert_grapheme,
    is_alphabetic, is_blank, remove_at, remove_grapheme, to_uppercase, uppercase_of, views,
};
use crate::{EntryView, Status};
use vstd::prelude::*;

verus! {

/// A key, as the board reads it.
#[derive(Clone, Copy, Debug, PartialEq, Eq, Structural)]
pub enum Key {
    Char(char),
    Up,
    Down,
    Left,
    Right,
    Enter,
    Esc,
    Backspace,
    Delete,
    Other,
}

/// A key press; `shift` holds when Shift, and no other modifier, was down.
#[derive(Clone, Copy, Debug, PartialEq, Eq, Structural)]
pub struct KeyPress {
    pub code: Key,
    pub shift: bool,
}

#[derive(Clone, Copy, Debug, PartialEq, Eq, Structural)]
pub enum MouseKind {
    Down,
    Up,
    Other,
}

/// A pointer event at a terminal cell.
#[derive(Clone, Copy, Debug, PartialEq, Eq, Structural)]
pub struct MouseEvent {
    pub kind: MouseKind,
    pub column: u16,
    pub row: u16,
}

/// What the event loop does next.
#[derive(Debug, PartialEq, Eq)]
pub enum InputResult {
    Quit,
    Error(String),
    Success,
    Modified,
}

/// `n` held to the number of graphemes of `input`.
pub open spec fn clamped(n: int, input: Seq<char>) -> usize {
    if n <= graphemes_of(input).len() {
        n as usize
    } else {
        graphemes_of(input).len() as usize
    }
}

/// The text box after typing `c`: the character goes in at the cursor, in
/// upper case when it is a letter that starts a word, and the cursor moves
/// past it (one step for the character itself, one per grapheme of its
/// upper case), held to the new text.
pub open spec fn typed(a: AppView, c: char) -> AppView {
    let gs = graphemes_of(a.input);
    let cur = a.cursor_position as int;
    let capital = alphabetic(c) && (cur == 0 || (cur - 1 < gs.len() && all_white_space(
        gs[cur - 1],
    )));
    let ins = if capital {
        uppercase_of(c)
    } else {
        seq![c]
    };
    let k = if cur >= gs.len() {
        gs.len() as int
    } else {
        cur
    };
    let input = insert_at(gs, k, ins);
    let step = if capital {
        graphemes_of(ins).len() as int
    } else {
        1
    };
    let moved = if cur + step <= usize::MAX {
        cur + step
    } else {
        usize::MAX as int
    };
    AppView { input, cursor_position: clamped(moved, input), ..a }
}

/// The text box after Backspace: the grapheme before the cursor goes.
pub open spec fn backspaced(a: AppView) -> AppView {
    let gs = graphemes_of(a.input);
    let cur = a.cursor_position as int;
    if cur > 0 {
        let input = if cur - 1 < gs.len() {
            remove_at(gs, cur - 1)
        } else {
            a.input
        };
        AppView { input, cursor_position: clamped(cur - 1, input), ..a }
    } else {
        a
    }
}

/// The text box after Delete: the grapheme at the cursor goes, and the
/// cursor is held to the shortened text.
pub open spec fn deleted(a: AppView) -> AppView {
    let gs = graphemes_of(a.input);
    let input = if a.cursor_position < gs.len() {
        remove_at(gs, a.cursor_position as int)
    } else {
        a.input
    };
    AppView { input, cursor_position: clamped(a.cursor_position as int, input), ..a }
}

/// Back to Normal mode with the cursor at 0.
pub open spec fn to_normal(a: AppView) -> AppView {
    AppView { input_mode: InputMode::Normal, cursor_position: 0, ..a }
}

/// Enter in the text box: the text becomes a new entry (keyed `id`) or the
/// selected entry's title.
pub open spec fn committed(a: AppView, draws: Seq<u128>) -> AppView {
    let emptied = AppView { input: Seq::empty(), ..a };
    if a.input_mode == InputMode::Adding {
        to_normal(emptied.after_add_drawn(a.input, draws))
    } else if a.input_mode == InputMode::Editing && a.has_selection() {
        to_normal(emptied.after_edit_title(a.input))
    } else {
        to_normal(a)
    }
}

/// A key in the Adding and Editing modes.
pub open spec fn text_key(a: AppView, key: KeyPress, draws: Seq<u128>) -> (AppView, InputResult) {
    match key.code {
        Key::Enter => (committed(a, draws), InputResult::Modified),
        Key::Char(c) => (typed(a, c), InputResult::Success),
        Key::Backspace => (backspaced(a), InputResult::Success),
        Key::Delete => (deleted(a), InputResult::Success),
        Key::Left => (
            AppView {
                cursor_position: clamped(
                    if a.cursor_position > 0 {
                        a.cursor_position - 1
                    } else {
                        0
                    },
                    a.input,
                ),
                ..a
            },
            InputResult::Success,
        ),
        Key::Right => (
            AppView {
                cursor_position: clamped(
                    if a.cursor_position < usize::MAX {
                        a.cursor_position + 1
                    } else {
                        usize::MAX as int
                    },
                    a.input,
                ),
                ..a
            },
            InputResult::Success,
        ),
        Key::Esc => (to_normal(AppView { input: Seq::empty(), ..a }), InputResult::Success),
        _ => (a, InputResult::Success),
    }
}

/// A key in the Normal mode.
pub open spec fn normal_key(a: AppView, key: KeyPress) -> (AppView, InputResult) {
    match key.code {
        Key::Char('q') => (a, InputResult::Quit),
        Key::Up => if key.shift {
            (a.after_move_up(), InputResult::Modified)
        } else {
            (a.after_prev_entry(), InputResult::Success)
        },
        Key::Down => if key.shift {
            (a.after_move_down(), InputResult::Modified)
        } else {
            (a.after_next_entry(), InputResult::Success)
        },
        Key::Right => if key.shift {
            if a.has_selection() {
                (a.after_move_to(a.selected().status.succ()), InputResult::Modified)
            } else {
                (a, InputResult::Success)
            }
        } else {
            (a.after_next_column(), InputResult::Success)
        },
        Key::Left => if key.shift {
            if a.has_selection() {
                (a.after_move_to(a.selected().status.pred()), InputResult::Modified)
            } else {
                (a, InputResult::Success)
            }
        } else {
            (a.after_prev_column(), InputResult::Success)
        },
        Key::Char('a') => (
            AppView {
                input: Seq::empty(),
                cursor_position: 0,
                input_mode: InputMode::Adding,
                ..a
            },
            InputResult::Success,
        ),
        Key::Char('e') => if a.has_selection() {
            (
                AppView {
                    input: a.selected().title,
                    cursor_position: graphemes_of(a.selected().title).len() as usize,
                    input_mode: InputMode::Editing,
                    ..a
                },
                InputResult::Success,
            )
        } else {
            (a, InputResult::Success)
        },
        Key::Char('h') => (AppView { show_help: !a.show_help, ..a }, InputResult::Success),
        Key::Char('t') => (
            AppView { show_full_title: !a.show_full_title, ..a },
            InputResult::Success,
        ),
        Key::Char('+') => (a.after_next_episode(), InputResult::Modified),
        Key::Char('-') => (a.after_prev_episode(), InputResult::Modified),
        Key::Char('#') => (a.after_next_season(), InputResult::Modified),
        Key::Char('x') => (
            AppView { input_mode: InputMode::ConfirmDelete, ..a },
            InputResult::Success,
        ),
        _ => (a, InputResult::Success),
    }
}

/// A key while a deletion waits for confirmation.
pub open spec fn confirm_key(a: AppView, key: KeyPress) -> (AppView, InputResult) {
    match key.code {
        Key::Char('y') | Key::Char('Y') => (
            AppView { input_mode: InputMode::Normal, ..a.after_remove() },
            InputResult::Modified,
        ),
        Key::Char('n') | Key::Char('N') | Key::Esc => (
            AppView { input_mode: InputMode::Normal, ..a },
            InputResult::Success,
        ),
        _ => (a, InputResult::Success),
    }
}

/// A key, read according to the mode; `id` keys an entry that Enter adds.
pub open spec fn key_step(a: AppView, key: KeyPress, draws: Seq<u128>) -> (
    AppView,
    InputResult,
) {
    match a.input_mode {
        InputMode::Normal => normal_key(a, key),
        InputMode::Adding | InputMode::Editing => text_key(a, key, draws),
        InputMode::ConfirmDelete => confirm_key(a, key),
    }
}

/// The cell (`x`, `y`) lies inside `r`.
pub open spec fn in_rect(r: Rect, x: u16, y: u16) -> bool {
    r.x <= x < r.x + r.width && r.y <= y < r.y + r.height
}

/// Column `x` lies within the horizontal extent of `r`.
pub open spec fn in_span(r: Rect, x: u16) -> bool {
    r.x <= x < r.x + r.width
}

/// The first of `rs[i..]` that holds the cell (`x`, `y`).
pub open spec fn find_rect(rs: Seq<Rect>, x: u16, y: u16, i: nat) -> Option<int>
    decreases rs.len() - i,
{
    if i >= rs.len() {
        None
    } else if in_rect(rs[i as int], x, y) {
        Some(i as int)
    } else {
        find_rect(rs, x, y, i + 1)
    }
}

/// The first of `rs[i..]` whose horizontal extent holds column `x`.
pub open spec fn find_span(rs: Seq<Rect>, x: u16, i: nat) -> Option<int>
    decreases rs.len() - i,
{
    if i >= rs.len() {
        None
    } else if in_span(rs[i as int], x) {
        Some(i as int)
    } else {
        find_span(rs, x, i + 1)
    }
}

/// The status shown in the `i`-th column rectangle.
pub open spec fn column_status(i: int) -> Option<Status> {
    if i == 0 {
        Some(Status::Planning)
    } else if i == 1 {
        Some(Status::Watching)
    } else if i == 2 {
        Some(Status::Completed)
    } else {
        None
    }
}

/// Pointer-down on the board: the entry on that row of the column under
/// the pointer (rows counted from below the column's top border) is
/// selected and picked up.
pub open spec fn picked(a: AppView, ev: MouseEvent) -> AppView {
    match find_rect(a.column_layout, ev.column, ev.row, 0) {
        Some(c) => match column_status(c) {
            Some(st) => {
                let entries = column(a.entry, st);
                let top = a.column_layout[c].y + 1;
                if ev.row >= top && ev.row - top < entries.len() {
                    let idx = entries[ev.row - top];
                    AppView {
                        selected_index: idx,
                        dragged_entry: Some((idx, a.entry[idx as int].status)),
                        ..a
                    }
                } else {
                    a
                }
            },
            None => a,
        },
        None => a,
    }
}

/// Pointer-down on the text box's line moves the cursor under the pointer.
pub open spec fn on_input_line(a: AppView, ev: MouseEvent) -> bool {
    &&& (a.input_mode == InputMode::Adding || a.input_mode == InputMode::Editing)
    &&& a.layout.len() > 1
    &&& ev.row == a.layout[1].y + 1
    &&& ev.column > a.layout[1].x
    &&& ev.column + 1 < a.layout[1].x + a.layout[1].width
}

/// Pointer-up ends a drag: over a column, the dragged entry takes that
/// column's status, whichever row the pointer is on.
pub open spec fn dropped(a: AppView, ev: MouseEvent) -> (AppView, InputResult) {
    match a.dragged_entry {
        Some((idx, _)) => {
            let released = AppView { dragged_entry: None, ..a };
            match find_span(a.column_layout, ev.column, 0) {
                Some(c) => match column_status(c) {
                    Some(st) => (
                        if idx < a.entry.len() {
                            released.with_entry(idx as int, EntryView { status: st, ..a.entry[idx as int] })
                        } else {
                            released
                        },
                        InputResult::Modified,
                    ),
                    None => (released, InputResult::Success),
                },
                None => (released, InputResult::Success),
            }
        },
        None => (a, InputResult::Success),
    }
}

/// A pointer event.
pub open spec fn mouse_step(a: AppView, ev: MouseEvent) -> (AppView, InputResult) {
    let a = AppView { mouse_pos: (ev.column, ev.row), ..a };
    match ev.kind {
        MouseKind::Down => if on_input_line(a, ev) {
            (
                AppView {
                    cursor_position: clamped(ev.column - (a.layout[1].x + 1), a.input),
                    ..a
                },
                InputResult::Success,
            )
        } else {
            (picked(a, ev), InputResult::Success)
        },
        MouseKind::Up => dropped(a, ev),
        MouseKind::Other => (a, InputResult::Success),
    }
}

/// Drag and drop: pressing on row `R` of board column `c` (rows counted from
/// 0 below the column's top border) selects and picks up the `R`-th entry of
/// that column; releasing over column `d` then gives that entry `d`'s status,
/// also when `d` is `c`, and leaves the rest of the entry as it was.
pub proof fn lemma_drag_drop(a: AppView, down: MouseEvent, up: MouseEvent, c: int, d: int)
    requires
        a.wf(),
        down.kind == MouseKind::Down,
        up.kind == MouseKind::Up,
        !on_input_line(a, down),
        find_rect(a.column_layout, down.column, down.row, 0) == Some(c),
        column_status(c) is Some,
        down.row >= a.column_layout[c].y + 1,
        down.row - (a.column_layout[c].y + 1) < column(a.entry, column_status(c)->0).len(),
        find_span(a.column_layout, up.column, 0) == Some(d),
        column_status(d) is Some,
    ensures
        ({
            let idx = column(a.entry, column_status(c)->0)[down.row - (a.column_layout[c].y + 1)];
            let b = mouse_step(a, down).0;
            let e = mouse_step(b, up).0;
            &&& b.selected_index == idx
            &&& b.dragged_entry == Some((idx, column_status(c)->0))
            &&& idx < e.entry.len()
            &&& e.entry[idx as int] == (EntryView { status: column_status(d)->0, ..a.entry[idx as int] })
            &&& e.dragged_entry is None
            &&& mouse_step(b, up).1 == InputResult::Modified
        }),
{
    crate::columns::lemma_column_indices(a.entry, column_status(c)->0);
}

/// A key keeps the selection on an entry.
proof fn lemma_key_keeps_selection(a: AppView, key: KeyPress, draws: Seq<u128>)
    requires
        a.wf(),
    ensures
        key_step(a, key, draws).0.selection_valid(),
{
    let emptied = AppView { input: Seq::empty(), ..a };
    crate::app::lemma_selection_stays_valid(a, a.input, 0, a.selected().status.succ());
    crate::app::lemma_selection_stays_valid(a, a.input, 0, a.selected().status.pred());
    crate::app::lemma_selection_stays_valid(emptied, a.input, 0, Status::Planning);
}

/// A pointer event keeps the selection on an entry.
proof fn lemma_mouse_keeps_selection(a: AppView, ev: MouseEvent)
    requires
        a.wf(),
    ensures
        mouse_step(a, ev).0.selection_valid(),
{
    let m = AppView { mouse_pos: (ev.column, ev.row), ..a };
    if let Some(c) = find_rect(m.column_layout, ev.column, ev.row, 0) {
        if let Some(st) = column_status(c) {
            crate::columns::lemma_column_indices(a.entry, st);
        }
    }
}

/// Holds `new_cursor_pos` to the number of graphemes of `input`.
pub fn clamp_cursor(new_cursor_pos: usize, input: &str) -> (r: usize)
    ensures
        r == clamped(new_cursor_pos as int, input@),
{
    let count = graphemes(input).len();
    if new_cursor_pos <= count {
        new_cursor_pos
    } else {
        count
    }
}

/// Three draws of the shape a random identifier has; on keys other than
/// Enter in Adding mode nothing depends on the draws.
spec fn some_draws() -> Seq<u128> {
    seq![0x40008000000000000000u128, 0x40008000000000000000u128, 0x40008000000000000000u128]
}

proof fn lemma_some_draws()
    ensures
        some_draws().len() == 3,
        forall|i: int| 0 <= i < 3 ==> is_v4(#[trigger] some_draws()[i]),
{
    let w = 0x40008000000000000000u128;
    assert((w >> 76u128) & 0xfu128 == 4 && (w >> 62u128) & 0x3u128 == 2) by (bit_vector)
        requires
            w == 0x40008000000000000000u128,
    ;
}

proof fn keep_wf(a: AppView, app: &App, key: KeyPress, draws: Seq<u128>)
    requires
        app@ == key_step(a, key, draws).0,
    ensures
        a.wf() ==> app@.wf(),
{
    if a.wf() {
        lemma_key_keeps_selection(a, key, draws);
        assert(app@.entry.len() == app.entry.len());
    }
}

/// Reads a key according to the input mode.
pub fn handle_key(key: KeyPress, app: &mut App) -> (r: InputResult)
    ensures
        exists|draws: Seq<u128>|
            {
                &&& draws.len() == 3
                &&& forall|i: int| 0 <= i < 3 ==> is_v4(#[trigger] draws[i])
                &&& (final(app)@, r) == key_step(old(app)@, key, draws)
            },
        old(app)@.wf() ==> final(app)@.wf(),
        old(app)@.cursor_position <= graphemes_of(old(app)@.input).len()
            ==> final(app)@.cursor_position <= graphemes_of(final(app)@.input).len(),
{
    proof {
        lemma_some_draws();
    }
    let ghost a = app@;
    match app.input_mode {
        InputMode::Normal => {
            let r = handle_normal_mode_key(key, app);
            assert((app@, r) == key_step(old(app)@, key, some_draws()));
            proof {
                keep_wf(a, app, key, some_draws());
            }
            r
        },
        InputMode::Adding | InputMode::Editing => {
            let r = handle_input_mode_key(key, app);
            let ghost draws = choose|draws: Seq<u128>|
                {
                    &&& draws.len() == 3
                    &&& forall|i: int| 0 <= i < 3 ==> is_v4(#[trigger] draws[i])
                    &&& (app@, r) == text_key(old(app)@, key, draws)
                };
            assert((app@, r) == key_step(old(app)@, key, draws));
            proof {
                keep_wf(a, app, key, draws);
            }
            r
        },
        InputMode::ConfirmDelete => {
            let r = handle_confirm_delete_mode_key(key, app);
            assert((app@, r) == key_step(old(app)@, key, some_draws()));
            proof {
                keep_wf(a, app, key, some_draws());
            }
            r
        },
    }
}

fn handle_normal_mode_key(key: KeyPress, app: &mut App) -> (r: InputResult)
    ensures
        (final(app)@, r) == normal_key(old(app)@, key),
{
    match key.code {
        Key::Char('q') => {
            return InputResult::Quit;
        },
        Key::Up => {
            if key.shift {
                app.move_entry_up_in_column();
                return InputResult::Modified;
            } else {
                app.prev_entry();
            }
        },
        Key::Down => {
            if key.shift {
                app.move_entry_down_in_column();
                return InputResult::Modified;
            } else {
                app.next_entry();
            }
        },
        Key::Right => {
            if key.shift {
                if app.selected_index < app.entry.len() {
                    let new_status = app.entry[app.selected_index].status.next();
                    app.move_to(new_status);
                    return InputResult::Modified;
                }
            } else {
                app.select_next_column();
            }
        },
        Key::Left => {
            if key.shift {
                if app.selected_index < app.entry.len() {
                    let new_status = app.entry[app.selected_index].status.prev();
                    app.move_to(new_status);
                    return InputResult::Modified;
                }
            } else {
                app.select_prev_column();
            }
        },
        Key::Char('a') => {
            app.input = String::new();
            app.cursor_position = 0;
            app.input_mode = InputMode::Adding;
        },
        Key::Char('e') => {
            if app.selected_index < app.entry.len() {
                app.input = app.entry[app.selected_index].title.clone();
                app.cursor_position = graphemes(app.input.as_str()).len();
                app.input_mode = InputMode::Editing;
            }
        },
        Key::Char('h') => {
            app.show_help = !app.show_help;
        },
        Key::Char('t') => {
            app.show_full_title = !app.show_full_title;
        },
        Key::Char('+') => {
            app.next_episode();
            return InputResult::Modified;
        },
        Key::Char('-') => {
            app.prev_episode();
            return InputResult::Modified;
        },
        Key::Char('#') => {
            app.next_season();
            return InputResult::Modified;
        },
        Key::Char('x') => {
            app.input_mode = InputMode::ConfirmDelete;
        },
        _ => {},
    }
    InputResult::Success
}

fn handle_input_mode_key(key: KeyPress, app: &mut App) -> (r: InputResult)
    requires
        old(app).input_mode == InputMode::Adding || old(app).input_mode == InputMode::Editing,
    ensures
        exists|draws: Seq<u128>|
            {
                &&& draws.len() == 3
                &&& forall|i: int| 0 <= i < 3 ==> is_v4(#[trigger] draws[i])
                &&& (final(app)@, r) == text_key(old(app)@, key, draws)
            },
        old(app)@.cursor_position <= graphemes_of(old(app)@.input).len()
            ==> final(app)@.cursor_position <= graphemes_of(final(app)@.input).len(),
{
    proof {
        lemma_some_draws();
    }
    match key.code {
        Key::Enter => {
            if app.input_mode == InputMode::Adding {
                let mut title = String::new();
                std::mem::swap(&mut title, &mut app.input);
                let ghost emptied = app@;
                assert(emptied == (AppView { input: Seq::empty(), ..old(app)@ }));
                app.add_entry(title);
                let ghost draws = choose|draws: Seq<u128>|
                    {
                        &&& draws.len() == 3
                        &&& forall|i: int| 0 <= i < 3 ==> is_v4(#[trigger] draws[i])
                        &&& app@ == emptied.after_add_drawn(old(app)@.input, draws)
                    };
                app.input_mode = InputMode::Normal;
                app.cursor_position = 0;
                assert((app@, InputResult::Modified) == text_key(old(app)@, key, draws));
                return InputResult::Modified;
            } else if app.input_mode == InputMode::Editing {
                if app.selected_index < app.entry.len() {
                    let mut title = String::new();
                    std::mem::swap(&mut title, &mut app.input);
                    let ghost emptied = app@;
                    assert(emptied == (AppView { input: Seq::empty(), ..old(app)@ }));
                    app.edit_entry_title(title);
                }
            }
            app.input_mode = InputMode::Normal;
            app.cursor_position = 0;
            assert((app@, InputResult::Modified) == text_key(old(app)@, key, some_draws()));
            return InputResult::Modified;
        },
        Key::Char(c) => {
            let gs = graphemes(app.input.as_str());
            let cur = app.cursor_position;
            let capital = if is_alphabetic(c) {
                if cur == 0 {
                    true
                } else if cur - 1 < gs.len() {
                    is_blank(gs[cur - 1].as_str())
                } else {
                    false
                }
            } else {
                false
            };
            let ins = if capital {
                to_uppercase(c)
            } else {
                char_string(c)
            };
            let k = if cur >= gs.len() {
                gs.len()
            } else {
                cur
            };
            app.input = insert_grapheme(&gs, k, ins.as_str());
            let ins_graphemes = graphemes(ins.as_str());
            let step = ins_graphemes.len();
            assert(!capital ==> ins@ == seq![c] && views(ins_graphemes@) =~= seq![seq![c]]);
            app.cursor_position = clamp_cursor(cur.saturating_add(step), app.input.as_str());
        },
        Key::Backspace => {
            if app.cursor_position > 0 {
                let gs = graphemes(app.input.as_str());
                if app.cursor_position - 1 < gs.len() {
                    app.input = remove_grapheme(&gs, app.cursor_position - 1);
                }
                app.cursor_position = clamp_cursor(app.cursor_position - 1, app.input.as_str());
            }
        },
        Key::Delete => {
            let gs = graphemes(app.input.as_str());
            if app.cursor_position < gs.len() {
                app.input = remove_grapheme(&gs, app.cursor_position);
            }
            app.cursor_position = clamp_cursor(app.cursor_position, app.input.as_str());
        },
        Key::Left => {
            app.cursor_position = clamp_cursor(
                app.cursor_position.saturating_sub(1),
                app.input.as_str(),
            );
        },
        Key::Right => {
            app.cursor_position = clamp_cursor(
                app.cursor_position.saturating_add(1),
                app.input.as_str(),
            );
        },
        Key::Esc => {
            app.input = String::new();
            app.input_mode = InputMode::Normal;
            app.cursor_position = 0;
        },
        _ => {},
    }
    assert((app@, InputResult::Success) == text_key(old(app)@, key, some_draws()));
    InputResult::Success
}

fn handle_confirm_delete_mode_key(key: KeyPress, app: &mut App) -> (r: InputResult)
    ensures
        (final(app)@, r) == confirm_key(old(app)@, key),
{
    match key.code {
        Key::Char('y') | Key::Char('Y') => {
            app.remove_entry();
            app.input_mode = InputMode::Normal;
            InputResult::Modified
        },
        Key::Char('n') | Key::Char('N') | Key::Esc => {
            app.input_mode = InputMode::Normal;
            InputResult::Success
        },
        _ => InputResult::Success,
    }
}

fn find_rect_exec(rs: &Vec<Rect>, x: u16, y: u16) -> (r: Option<usize>)
    ensures
        match r {
            Some(i) => i < rs.len() && find_rect(rs@, x, y, 0) == Some(i as int),
            None => find_rect(rs@, x, y, 0) is None,
        },
{
    let mut i: usize = 0;
    while i < rs.len()
        invariant
            i <= rs.len(),
            find_rect(rs@, x, y, i as nat) == find_rect(rs@, x, y, 0),
        decreases rs.len() - i,
    {
        let r = rs[i];
        if (x as u32) >= (r.x as u32) && (x as u32) < (r.x as u32) + (r.width as u32) && (y as u32)
            >= (r.y as u32) && (y as u32) < (r.y as u32) + (r.height as u32) {
            return Some(i);
        }
        i = i + 1;
    }
    None
}

fn find_span_exec(rs: &Vec<Rect>, x: u16) -> (r: Option<usize>)
    ensures
        match r {
            Some(i) => i < rs.len() && find_span(rs@, x, 0) == Some(i as int),
            None => find_span(rs@, x, 0) is None,
        },
{
    let mut i: usize = 0;
    while i < rs.len()
        invariant
            i <= rs.len(),
            find_span(rs@, x, i as nat) == find_span(rs@, x, 0),
        decreases rs.len() - i,
    {
        let r = rs[i];
        if (x as u32) >= (r.x as u32) && (x as u32) < (r.x as u32) + (r.width as u32) {
            return Some(i);
        }
        i = i + 1;
    }
    None
}

fn status_of_column(i: usize) -> (r: Option<Status>)
    ensures
        r == column_status(i as int),
{
    if i == 0 {
        Some(Status::Planning)
    } else if i == 1 {
        Some(Status::Watching)
    } else if i == 2 {
        Some(Status::Completed)
    } else {
        None
    }
}

/// Reads a pointer event: a press on the text box moves the cursor, a press
/// on a column picks up the entry under it, a release over a column drops
/// the picked-up entry into it.
pub fn handle_mouse(mouse: MouseEvent, app: &mut App) -> (r: InputResult)
    ensures
        (final(app)@, r) == mouse_step(old(app)@, mouse),
        old(app)@.wf() ==> final(app)@.wf(),
{
    proof {
        if old(app)@.wf() {
            lemma_mouse_keeps_selection(old(app)@, mouse);
        }
    }
    app.mouse_pos = (mouse.column, mouse.row);
    match mouse.kind {
        MouseKind::Down => {
            if app.input_mode == InputMode::Adding || app.input_mode == InputMode::Editing {
                if app.layout.len() > 1 {
                    let l = app.layout[1];
                    if (mouse.row as u32) == (l.y as u32) + 1 && mouse.column > l.x && (
                    mouse.column as u32) + 1 < (l.x as u32) + (l.width as u32) {
                        let new_cursor_pos = (mouse.column - (l.x + 1)) as usize;
                        app.cursor_position = clamp_cursor(new_cursor_pos, app.input.as_str());
                        return InputResult::Success;
                    }
                }
            }
            if let Some(col) = find_rect_exec(&app.column_layout, mouse.column, mouse.row) {
                if let Some(status) = status_of_column(col) {
                    let entries = app.get_entries_by_status(status);
                    let top = (app.column_layout[col].y as usize) + 1;
                    if (mouse.row as usize) >= top {
                        let item_index = (mouse.row as usize) - top;
                        if item_index < entries.len() {
                            let idx = entries[item_index];
                            proof {
                                assert(app@.entry.len() == app.entry.len());
                                crate::columns::lemma_column_indices(app@.entry, status);
                            }
                            app.selected_index = idx;
                            app.dragged_entry = Some((idx, app.entry[idx].status));
                        }
                    }
                }
            }
            InputResult::Success
        },
        MouseKind::Up => {
            if let Some((dragged_idx, _)) = app.dragged_entry {
                if let Some(col) = find_span_exec(&app.column_layout, mouse.column) {
                    if let Some(new_status) = status_of_column(col) {
                        app.dragged_entry = None;
                        if dragged_idx < app.entry.len() {
                            app.set_entry_status(dragged_idx, new_status);
                        }
                        return InputResult::Modified;
                    }
                }
                app.dragged_entry = None;
            }
            InputResult::Success
        },
        MouseKind::Other => InputResult::Success,
    }
}

} // verus!
