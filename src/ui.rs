//! What the drawn board shows: titles fitted to their column, and the
//! entry under the pointer.
use crate::app::{App, AppView};
use crate::columns::{column, lemma_column_indices};
use crate::input::{column_status, in_span};
use crate::consts::PADDING;
use crate::text::{char_string, chars_of};
use crate::Status;
use vstd::prelude::*;

verus! {

/// Number of decimal digits of `n`.
pub open spec fn digits(n: u32) -> nat {
    if n < 10 {
        1
    } else if n < 100 {
        2
    } else if n < 1_000 {
        3
    } else if n < 10_000 {
        4
    } else if n < 100_000 {
        5
    } else if n < 1_000_000 {
        6
    } else if n < 10_000_000 {
        7
    } else if n < 100_000_000 {
        8
    } else if n < 1_000_000_000 {
        9
    } else {
        10
    }
}

/// Characters left for a title in a column `col_width` cells wide, beside the
/// suffix " (S<season> E<episode>)" and the padding.
pub open spec fn title_room(col_width: int, season: u32, episode: u32) -> int {
    let suffix = 6 + digits(season) + digits(episode);
    if col_width > suffix + PADDING {
        col_width - suffix - PADDING
    } else {
        0
    }
}

/// `text` when it has at most `max` characters; else its first `max - 3`
/// characters (none when `max < 3`) followed by "...".
pub open spec fn ellipsized(text: Seq<char>, max: int) -> Seq<char> {
    if text.len() > max {
        text.take(if max >= 3 { max - 3 } else { 0 }) + "..."@
    } else {
        text
    }
}

fn decimal_digits(n: u32) -> (r: usize)
    ensures
        r == digits(n),
{
    if n < 10 {
        1
    } else if n < 100 {
        2
    } else if n < 1_000 {
        3
    } else if n < 10_000 {
        4
    } else if n < 100_000 {
        5
    } else if n < 1_000_000 {
        6
    } else if n < 10_000_000 {
        7
    } else if n < 100_000_000 {
        8
    } else if n < 1_000_000_000 {
        9
    } else {
        10
    }
}

/// Characters left for a title beside its season and episode in a column
/// `col_width` cells wide.
pub fn title_limit(col_width: usize, season: u32, episode: u32) -> (r: usize)
    ensures
        r == title_room(col_width as int, season, episode),
{
    let suffix_len = 6 + decimal_digits(season) + decimal_digits(episode);
    if col_width > suffix_len + PADDING {
        col_width - suffix_len - PADDING
    } else {
        0
    }
}

/// Cuts `text` to `max_chars` characters, marking the cut with "...".
pub fn ellipsize(text: &str, max_chars: usize) -> (r: String)
    ensures
        r@ == ellipsized(text@, max_chars as int),
{
    let cs = chars_of(text);
    if cs.len() <= max_chars {
        return String::from_str(text);
    }
    let keep = if max_chars >= 3 {
        max_chars - 3
    } else {
        0
    };
    let mut r = String::new();
    let mut i: usize = 0;
    while i < keep
        invariant
            keep < cs.len(),
            i <= keep,
            cs@ == text@,
            r@ == text@.take(i as int),
        decreases keep - i,
    {
        let c = char_string(cs[i]);
        r.append(c.as_str());
        assert(text@.take(i + 1) =~= text@.take(i as int).push(text@[i as int]));
        i = i + 1;
    }
    r.append("...");
    r
}

/// The entry under the pointer: the first of the three board columns, from
/// `i` on, whose horizontal extent holds the pointer and that has an entry
/// on the pointer's row (rows counted from 0 below the top border).
pub open spec fn entry_under_pointer(a: AppView, i: nat) -> Option<usize>
    decreases 3 - i,
{
    if i >= 3 || i >= a.column_layout.len() {
        None
    } else {
        let col = a.column_layout[i as int];
        let entries = column(a.entry, column_status(i as int)->0);
        let (x, y) = a.mouse_pos;
        if in_span(col, x) && y >= col.y + 1 && y - (col.y + 1) < entries.len() {
            Some(entries[y - (col.y + 1)])
        } else {
            entry_under_pointer(a, i + 1)
        }
    }
}

/// The global index of the entry under the last pointer position, if any.
pub fn get_mouse_selection(app: &mut App) -> (r: Option<usize>)
    ensures
        final(app)@ == old(app)@,
        r == entry_under_pointer(old(app)@, 0),
        r matches Some(i) ==> i < old(app).entry.len(),
{
    let mouse_x = app.mouse_pos.0;
    let mouse_y = app.mouse_pos.1;
    proof {
        assert(app@.entry.len() == app.entry.len());
    }
    let mut i: usize = 0;
    while i < 3 && i < app.column_layout.len()
        invariant
            i <= 3,
            entry_under_pointer(app@, i as nat) == entry_under_pointer(app@, 0),
            app@.entry.len() == app.entry.len(),
            mouse_x == app.mouse_pos.0,
            mouse_y == app.mouse_pos.1,
        decreases 3 - i,
    {
        let status = if i == 0 {
            Status::Planning
        } else if i == 1 {
            Status::Watching
        } else {
            Status::Completed
        };
        let col = app.column_layout[i];
        if (mouse_x as u32) >= (col.x as u32) && (mouse_x as u32) < (col.x as u32) + (
        col.width as u32) {
            let entries = app.get_entries_by_status(status);
            let list_start_y = (col.y as u32) + 1;
            if (mouse_y as u32) >= list_start_y {
                let selected_line = ((mouse_y as u32) - list_start_y) as usize;
                if selected_line < entries.len() {
                    proof {
                        lemma_column_indices(app@.entry, status);
                    }
                    return Some(entries[selected_line]);
                }
            }
        }
        i = i + 1;
    }
    None
}

} // verus!
