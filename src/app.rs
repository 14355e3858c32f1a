//! The application state: the entries, the selection, the text being typed,
//! the drag in progress, the one error message, and the writes owed to the store.
use crate::columns::{
    column, lemma_column, next_column_selection, next_selection, nonempty, prev_column_selection,
    prev_selection, rank,
};
use crate::config::Config;
use crate::consts::ERROR_POPUP_DURATION;
use crate::ids::{is_v4, new_entry_id};
use crate::{Entry, EntryView, Status};
use vstd::prelude::*;

verus! {

/// A rectangle on the terminal, in cells.
#[derive(Clone, Copy, Debug, PartialEq, Eq, Structural)]
pub struct Rect {
    pub x: u16,
    pub y: u16,
    pub width: u16,
    pub height: u16,
}

/// How keys are read.
#[derive(Clone, Copy, Debug, PartialEq, Eq, Structural)]
pub enum InputMode {
    Normal,
    Editing,
    Adding,
    ConfirmDelete,
}

/// A write owed to the store after a change of the entries.
#[derive(Clone, Debug)]
pub enum StoreOp {
    Add(Entry),
    Update(Entry),
    Delete(u128),
}

/// A write owed to the store, as plain values.
pub enum StoreOpView {
    Add(EntryView),
    Update(EntryView),
    Delete(u128),
}

impl View for StoreOp {
    type V = StoreOpView;

    open spec fn view(&self) -> StoreOpView {
        match self {
            StoreOp::Add(e) => StoreOpView::Add(e@),
            StoreOp::Update(e) => StoreOpView::Update(e@),
            StoreOp::Delete(id) => StoreOpView::Delete(*id),
        }
    }
}

/// The board's whole state. The writes owed to the store wait in `pending`,
/// oldest first, for the event loop to carry out and answer through
/// `finish_write`. A new entry joins the board only once the store has taken
/// it; other changes are made in memory at once and stand when the store
/// refuses them, which is reported as an error message.
pub struct App {
    pub entry: Vec<Entry>,
    pub selected_index: usize,
    pub mouse_pos: (u16, u16),
    pub dragged_entry: Option<(usize, Status)>,
    pub layout: Vec<Rect>,
    pub column_layout: Vec<Rect>,
    pub input: String,
    pub cursor_position: usize,
    pub input_mode: InputMode,
    pub show_help: bool,
    pub show_full_title: bool,
    pub config: Config,
    pub error: Option<String>,
    /// Clock reading, in seconds, at which `error` was posted.
    pub last_error_time: Option<u64>,
    /// Latest clock reading handed to `tick`, in seconds.
    pub clock: u64,
    /// Writes owed to the store, oldest first.
    pub pending: Vec<StoreOp>,
}

/// The state of an `App` as plain values.
pub struct AppView {
    pub entry: Seq<EntryView>,
    pub selected_index: usize,
    pub mouse_pos: (u16, u16),
    pub dragged_entry: Option<(usize, Status)>,
    pub layout: Seq<Rect>,
    pub column_layout: Seq<Rect>,
    pub input: Seq<char>,
    pub cursor_position: usize,
    pub input_mode: InputMode,
    pub show_help: bool,
    pub show_full_title: bool,
    pub config: Config,
    pub error: Option<Seq<char>>,
    pub last_error_time: Option<u64>,
    pub clock: u64,
    pub pending: Seq<StoreOpView>,
}

impl View for App {
    type V = AppView;

    open spec fn view(&self) -> AppView {
        AppView {
            entry: self.entry@.map_values(|e: Entry| e@),
            selected_index: self.selected_index,
            mouse_pos: self.mouse_pos,
            dragged_entry: self.dragged_entry,
            layout: self.layout@,
            column_layout: self.column_layout@,
            input: self.input@,
            cursor_position: self.cursor_position,
            input_mode: self.input_mode,
            show_help: self.show_help,
            show_full_title: self.show_full_title,
            config: self.config,
            error: match self.error {
                Some(e) => Some(e@),
                None => None,
            },
            last_error_time: self.last_error_time,
            clock: self.clock,
            pending: self.pending@.map_values(|o: StoreOp| o@),
        }
    }
}

impl AppView {
    /// The selection points at an entry whenever there is one.
    pub open spec fn selection_valid(self) -> bool {
        self.entry.len() > 0 ==> self.selected_index < self.entry.len()
    }

    pub open spec fn wf(self) -> bool {
        &&& self.entry.len() <= usize::MAX
        &&& self.selection_valid()
    }

    pub open spec fn has_selection(self) -> bool {
        self.selected_index < self.entry.len()
    }

    pub open spec fn selected(self) -> EntryView {
        self.entry[self.selected_index as int]
    }

    pub open spec fn with_selection(self, i: int) -> AppView {
        AppView { selected_index: i as usize, ..self }
    }

    pub open spec fn after_next_entry(self) -> AppView {
        if self.has_selection() {
            self.with_selection(next_selection(self.entry, self.selected_index as int))
        } else {
            self
        }
    }

    pub open spec fn after_prev_entry(self) -> AppView {
        if self.has_selection() {
            self.with_selection(prev_selection(self.entry, self.selected_index as int))
        } else {
            self
        }
    }

    pub open spec fn after_next_column(self) -> AppView {
        if self.has_selection() {
            self.with_selection(next_column_selection(self.entry, self.selected_index as int))
        } else {
            self
        }
    }

    pub open spec fn after_prev_column(self) -> AppView {
        if self.has_selection() {
            self.with_selection(prev_column_selection(self.entry, self.selected_index as int))
        } else {
            self
        }
    }

    /// The view after `n` moves down.
    pub open spec fn forward_n(self, n: nat) -> AppView
        decreases n,
    {
        if n == 0 {
            self
        } else {
            self.forward_n((n - 1) as nat).after_next_entry()
        }
    }

    /// The view after `n` moves up.
    pub open spec fn backward_n(self, n: nat) -> AppView
        decreases n,
    {
        if n == 0 {
            self
        } else {
            self.after_prev_entry().backward_n((n - 1) as nat)
        }
    }

    /// Posts `msg` as the error message, stamped with the current clock.
    pub open spec fn post(self, msg: Seq<char>) -> AppView {
        AppView { error: Some(msg), last_error_time: Some(self.clock), ..self }
    }

    /// `title` is on the board, or in an addition still waiting for the store.
    pub open spec fn title_taken(self, title: Seq<char>) -> bool {
        ||| exists|i: int| 0 <= i < self.entry.len() && #[trigger] self.entry[i].title == title
        ||| exists|j: int|
            0 <= j < self.pending.len() && adds_title(#[trigger] self.pending[j], title)
    }

    /// `id` keys an entry on the board, or an addition still waiting for the store.
    pub open spec fn id_in_use(self, id: u128) -> bool {
        ||| exists|i: int| 0 <= i < self.entry.len() && #[trigger] self.entry[i].id == id
        ||| exists|j: int|
            0 <= j < self.pending.len() && adds_id(#[trigger] self.pending[j], id)
    }

    /// Asks the store to add a new entry titled `title`, keyed `id`. A title
    /// already taken is refused; so is an identifier already in use, which
    /// leaves the addition undone.
    pub open spec fn after_add(self, title: Seq<char>, id: u128) -> AppView {
        if self.title_taken(title) {
            self.post(duplicate_message(title))
        } else if self.id_in_use(id) {
            self.post(no_identifier_message())
        } else {
            let e = EntryView { id, title, season: 1, episode: 0, status: Status::Planning };
            AppView { pending: self.pending.push(StoreOpView::Add(e)), ..self }
        }
    }

    /// The first of `draws[i..]` that `id_in_use` does not hold of.
    pub open spec fn first_unused_from(self, draws: Seq<u128>, i: nat) -> Option<u128>
        decreases draws.len() - i,
    {
        if i >= draws.len() {
            None
        } else if !self.id_in_use(draws[i as int]) {
            Some(draws[i as int])
        } else {
            self.first_unused_from(draws, i + 1)
        }
    }

    /// Asks the store to add a new entry titled `title`, keyed by the first of
    /// the drawn identifiers `draws` that is not in use; a taken title is
    /// refused, and so is the addition when every draw is in use.
    pub open spec fn after_add_drawn(self, title: Seq<char>, draws: Seq<u128>) -> AppView {
        if self.title_taken(title) {
            self.post(duplicate_message(title))
        } else {
            match self.first_unused_from(draws, 0) {
                Some(id) => self.after_add(title, id),
                None => self.post(no_identifier_message()),
            }
        }
    }

    /// The store's answer to the write `op`: `None` when it took the write,
    /// else the cause of its refusal. An accepted addition joins the board
    /// and is selected; a refusal is posted as an error message, and a
    /// refused addition leaves the board as it was.
    pub open spec fn after_write(self, op: StoreOpView, refusal: Option<Seq<char>>) -> AppView {
        match refusal {
            None => match op {
                StoreOpView::Add(e) => AppView {
                    entry: self.entry.push(e),
                    selected_index: self.entry.len() as usize,
                    ..self
                },
                _ => self,
            },
            Some(cause) => self.post(failure_message(op, cause)),
        }
    }

    /// Deletes the selected entry; the selection keeps its index, or steps
    /// back when it pointed at the last entry.
    pub open spec fn after_remove(self) -> AppView {
        if self.has_selection() {
            let i = self.selected_index as int;
            let es = self.entry.remove(i);
            AppView {
                entry: es,
                selected_index: if i >= es.len() && i > 0 {
                    (i - 1) as usize
                } else {
                    i as usize
                },
                pending: self.pending.push(StoreOpView::Delete(self.entry[i].id)),
                ..self
            }
        } else {
            self
        }
    }

    /// Replaces entry `i` by `e` and owes the store its update.
    pub open spec fn with_entry(self, i: int, e: EntryView) -> AppView {
        AppView {
            entry: self.entry.update(i, e),
            pending: self.pending.push(StoreOpView::Update(e)),
            ..self
        }
    }

    /// Replaces the selected entry by `e` and owes the store its update.
    pub open spec fn with_selected(self, e: EntryView) -> AppView {
        self.with_entry(self.selected_index as int, e)
    }

    pub open spec fn after_move_to(self, status: Status) -> AppView {
        if self.has_selection() {
            self.with_selected(EntryView { status, ..self.selected() })
        } else {
            self
        }
    }

    pub open spec fn after_edit_title(self, title: Seq<char>) -> AppView {
        if self.has_selection() {
            self.with_selected(EntryView { title, ..self.selected() })
        } else {
            self
        }
    }

    /// One episode further; the count stays put at its largest value.
    pub open spec fn after_next_episode(self) -> AppView {
        if self.has_selection() {
            let e = self.selected();
            self.with_selected(
                EntryView { episode: if e.episode < u32::MAX { (e.episode + 1) as u32 } else { e.episode }, ..e },
            )
        } else {
            self
        }
    }

    /// One episode back; from episode 0 back to the previous season's
    /// episode 0; season 1 episode 0 stays as it is.
    pub open spec fn after_prev_episode(self) -> AppView {
        if self.has_selection() {
            let e = self.selected();
            self.with_selected(
                if e.episode > 0 {
                    EntryView { episode: (e.episode - 1) as u32, ..e }
                } else if e.season > 1 {
                    EntryView { season: (e.season - 1) as u32, episode: 0, ..e }
                } else {
                    e
                },
            )
        } else {
            self
        }
    }

    /// The next season, from episode 0; the count stays put at its largest value.
    pub open spec fn after_next_season(self) -> AppView {
        if self.has_selection() {
            let e = self.selected();
            self.with_selected(
                EntryView {
                    season: if e.season < u32::MAX { (e.season + 1) as u32 } else { e.season },
                    episode: 0,
                    ..e
                },
            )
        } else {
            self
        }
    }

    /// Exchanges entries `a` and `b`, selects `b`, and owes the store both.
    pub open spec fn swapped(self, a: int, b: int) -> AppView {
        let es = self.entry.update(a, self.entry[b]).update(b, self.entry[a]);
        AppView {
            entry: es,
            selected_index: b as usize,
            pending: self.pending.push(StoreOpView::Update(es[a])).push(StoreOpView::Update(es[b])),
            ..self
        }
    }

    /// Swaps the selected entry with the one above it in its column.
    pub open spec fn after_move_up(self) -> AppView {
        if self.has_selection() {
            let i = self.selected_index as int;
            let p = rank(self.entry, i);
            if p > 0 {
                self.swapped(i, column(self.entry, self.selected().status)[p - 1] as int)
            } else {
                self
            }
        } else {
            self
        }
    }

    /// Swaps the selected entry with the one below it in its column.
    pub open spec fn after_move_down(self) -> AppView {
        if self.has_selection() {
            let i = self.selected_index as int;
            let c = column(self.entry, self.selected().status);
            let p = rank(self.entry, i);
            if p + 1 < c.len() {
                self.swapped(i, c[p + 1] as int)
            } else {
                self
            }
        } else {
            self
        }
    }

    /// Sets the clock to `now` and clears an error older than the display time.
    pub open spec fn after_tick(self, now: u64) -> AppView {
        match self.last_error_time {
            Some(t) if now >= t && now - t > ERROR_POPUP_DURATION => AppView {
                clock: now,
                error: None,
                last_error_time: None,
                ..self
            },
            _ => AppView { clock: now, ..self },
        }
    }
}

/// The message posted when a title is already on the board.
pub open spec fn duplicate_message(title: Seq<char>) -> Seq<char> {
    "Entry with title '"@ + title + "' already exists!"@
}

/// `op` adds an entry titled `title`.
pub open spec fn adds_title(op: StoreOpView, title: Seq<char>) -> bool {
    match op {
        StoreOpView::Add(e) => e.title == title,
        _ => false,
    }
}

/// `op` adds an entry keyed `id`.
pub open spec fn adds_id(op: StoreOpView, id: u128) -> bool {
    match op {
        StoreOpView::Add(e) => e.id == id,
        _ => false,
    }
}

/// The message posted when no unused identifier could be drawn.
pub open spec fn no_identifier_message() -> Seq<char> {
    "Failed to add entry: no unused identifier"@
}

/// What a failed write was doing.
pub open spec fn action_text(op: StoreOpView) -> Seq<char> {
    match op {
        StoreOpView::Add(_) => "add entry to database"@,
        StoreOpView::Update(_) => "update entry in database"@,
        StoreOpView::Delete(_) => "delete entry from database"@,
    }
}

/// The message posted when a write to the store fails.
pub open spec fn failure_message(op: StoreOpView, cause: Seq<char>) -> Seq<char> {
    "Failed to "@ + action_text(op) + ": "@ + cause
}

/// Each change of the entries or of the selection keeps the selection on an entry.
pub proof fn lemma_selection_stays_valid(a: AppView, title: Seq<char>, id: u128, status: Status)
    requires
        a.wf(),
    ensures
        a.after_next_entry().selection_valid(),
        a.after_prev_entry().selection_valid(),
        a.after_next_column().selection_valid(),
        a.after_prev_column().selection_valid(),
        a.after_add(title, id).selection_valid(),
        forall|draws: Seq<u128>| #[trigger] a.after_add_drawn(title, draws).selection_valid(),
        forall|op: StoreOpView, refusal: Option<Seq<char>>|
            a.entry.len() < usize::MAX ==> #[trigger] a.after_write(op, refusal).wf(),
        a.after_remove().selection_valid(),
        a.after_move_to(status).selection_valid(),
        a.after_edit_title(title).selection_valid(),
        a.after_next_episode().selection_valid(),
        a.after_prev_episode().selection_valid(),
        a.after_next_season().selection_valid(),
        a.after_move_up().selection_valid(),
        a.after_move_down().selection_valid(),
{
    if a.has_selection() {
        crate::columns::lemma_next_selection_valid(a.entry, a.selected_index as int);
        lemma_column(a.entry, a.selected_index as int);
    }
}

/// A request to add a title (keyed by an identifier), the store's answer to
/// a write, or a removal of the selected entry.
pub enum BoardEdit {
    Add(Seq<char>, u128),
    Answer(StoreOpView, Option<Seq<char>>),
    Remove,
}

/// The view after the edits `ops`, first to last.
pub open spec fn apply_edits(a: AppView, ops: Seq<BoardEdit>) -> AppView
    decreases ops.len(),
{
    if ops.len() == 0 {
        a
    } else {
        let before = apply_edits(a, ops.drop_last());
        match ops.last() {
            BoardEdit::Add(title, id) => before.after_add(title, id),
            BoardEdit::Answer(op, refusal) => before.after_write(op, refusal),
            BoardEdit::Remove => before.after_remove(),
        }
    }
}

/// After any sequence of additions, answers of the store and removals the
/// selection is an index of the remaining entries, whenever any remain.
pub proof fn lemma_edits_keep_selection(a: AppView, ops: Seq<BoardEdit>)
    requires
        a.wf(),
        a.entry.len() + ops.len() <= usize::MAX,
    ensures
        apply_edits(a, ops).wf(),
        apply_edits(a, ops).entry.len() <= a.entry.len() + ops.len(),
    decreases ops.len(),
{
    if ops.len() > 0 {
        lemma_edits_keep_selection(a, ops.drop_last());
        let before = apply_edits(a, ops.drop_last());
        lemma_selection_stays_valid(before, Seq::empty(), 0, Status::Planning);
        match ops.last() {
            BoardEdit::Add(title, id) => {
                lemma_selection_stays_valid(before, title, id, Status::Planning);
            },
            BoardEdit::Answer(op, refusal) => {
                assert(before.after_write(op, refusal).wf());
            },
            BoardEdit::Remove => {},
        }
    }
}

/// Moving down `n` times and then up `n` times, with no change in between,
/// comes back to the selection one started from.
pub proof fn lemma_forward_backward(a: AppView, n: nat)
    requires
        a.wf(),
    ensures
        a.forward_n(n).backward_n(n) == a,
    decreases n,
{
    if n > 0 {
        lemma_forward_wf(a, (n - 1) as nat);
        let b = a.forward_n((n - 1) as nat);
        if b.has_selection() {
            crate::columns::lemma_prev_after_next(b.entry, b.selected_index as int);
            crate::columns::lemma_next_selection_valid(b.entry, b.selected_index as int);
        }
        assert(b.after_next_entry().after_prev_entry() == b);
        lemma_backward_split(b.after_next_entry(), (n - 1) as nat);
        lemma_forward_backward(a, (n - 1) as nat);
    }
}

proof fn lemma_forward_wf(a: AppView, n: nat)
    requires
        a.wf(),
    ensures
        a.forward_n(n).wf(),
        a.forward_n(n).entry == a.entry,
    decreases n,
{
    if n > 0 {
        lemma_forward_wf(a, (n - 1) as nat);
        let b = a.forward_n((n - 1) as nat);
        if b.has_selection() {
            crate::columns::lemma_next_selection_valid(b.entry, b.selected_index as int);
        }
    }
}

proof fn lemma_backward_split(a: AppView, n: nat)
    ensures
        a.after_prev_entry().backward_n(n) == a.backward_n(n).after_prev_entry(),
    decreases n,
{
    if n > 0 {
        lemma_backward_split(a.after_prev_entry(), (n - 1) as nat);
    }
}

/// Where `target` first stands in `v`.
fn position_of(v: &Vec<usize>, target: usize) -> (r: Option<usize>)
    ensures
        r matches Some(p) ==> p < v.len() && v[p as int] == target,
        r is None ==> forall|k: int| 0 <= k < v.len() ==> v[k] != target,
{
    let mut k: usize = 0;
    while k < v.len()
        invariant
            k <= v.len(),
            forall|j: int| 0 <= j < k ==> v[j] != target,
        decreases v.len() - k,
    {
        if v[k] == target {
            return Some(k);
        }
        k = k + 1;
    }
    None
}

impl App {
    pub fn new(entry: Vec<Entry>, config: Config) -> (r: App)
        ensures
            r@.entry == entry@.map_values(|e: Entry| e@),
            r@.config == config,
            r@.selected_index == 0,
            r@.dragged_entry is None,
            r@.layout.len() == 0,
            r@.column_layout.len() == 0,
            r@.input.len() == 0,
            r@.cursor_position == 0,
            r@.input_mode == InputMode::Normal,
            !r@.show_help,
            !r@.show_full_title,
            r@.error is None,
            r@.last_error_time is None,
            r@.clock == 0,
            r@.pending.len() == 0,
            r@.wf(),
    {
        let count = entry.len();
        assert(entry@.len() == count);
        App {
            entry,
            selected_index: 0,
            mouse_pos: (0, 0),
            dragged_entry: None,
            layout: Vec::new(),
            column_layout: Vec::new(),
            input: String::new(),
            cursor_position: 0,
            input_mode: InputMode::Normal,
            show_help: false,
            show_full_title: false,
            config,
            error: None,
            last_error_time: None,
            clock: 0,
            pending: Vec::new(),
        }
    }

    /// Global indices of the entries of `status`, top to bottom.
    pub(crate) fn get_entries_by_status(&self, status: Status) -> (r: Vec<usize>)
        ensures
            r@ == column(self@.entry, status),
    {
        let mut r: Vec<usize> = Vec::new();
        let mut i: usize = 0;
        while i < self.entry.len()
            invariant
                i <= self.entry.len(),
                r@ == crate::columns::col(self@.entry, status, i as nat),
            decreases self.entry.len() - i,
        {
            if self.entry[i].status == status {
                r.push(i);
            }
            i = i + 1;
        }
        r
    }

    /// Puts entry `i` in the column of `status` and owes the store its update.
    pub(crate) fn set_entry_status(&mut self, i: usize, status: Status)
        requires
            i < old(self).entry.len(),
        ensures
            final(self)@ == old(self)@.with_entry(
                i as int,
                EntryView { status, ..old(self)@.entry[i as int] },
            ),
    {
        let mut e = self.entry[i].clone();
        e.status = status;
        let record = e.clone();
        self.entry[i] = e;
        self.pending.push(StoreOp::Update(record));
        assert(self@.entry =~= old(self)@.entry.update(i as int, e@));
        assert(self@.pending =~= old(self)@.pending.push(StoreOpView::Update(e@)));
    }

    /// Moves the selection down its column, or on to the top of the next
    /// non-empty column past the bottom.
    pub fn next_entry(&mut self)
        ensures
            final(self)@ == old(self)@.after_next_entry(),
    {
        if self.entry.len() == 0 || self.selected_index >= self.entry.len() {
            return;
        }
        let ghost es = self@.entry;
        proof {
            lemma_column(es, self.selected_index as int);
        }
        let current = self.entry[self.selected_index].status;
        let in_current = self.get_entries_by_status(current);
        if let Some(pos) = position_of(&in_current, self.selected_index) {
            assert(rank(es, column(es, current)[pos as int] as int) == pos);
            if pos + 1 < in_current.len() {
                self.selected_index = in_current[pos + 1];
            } else {
                let mut probe = current.next();
                let mut k: usize = 0;
                while k < 3
                    invariant
                        self@ == old(self)@,
                        self@.entry == es,
                        self.selected_index < es.len(),
                        current == es[self.selected_index as int].status,
                        rank(es, self.selected_index as int) + 1 == column(es, current).len(),
                        k <= 2,
                        k == 0 ==> probe == current.succ(),
                        k == 1 ==> probe == current.succ().succ() && !nonempty(es, current.succ()),
                        k == 2 ==> probe == current && !nonempty(es, current.succ()) && !nonempty(
                            es,
                            current.succ().succ(),
                        ),
                    decreases 3 - k,
                {
                    let in_probe = self.get_entries_by_status(probe);
                    if in_probe.len() > 0 {
                        self.selected_index = in_probe[0];
                        return;
                    }
                    probe = probe.next();
                    k = k + 1;
                }
                self.selected_index = 0;
            }
        }
    }

    /// Moves the selection up its column, or on to the bottom of the previous
    /// non-empty column past the top.
    pub fn prev_entry(&mut self)
        ensures
            final(self)@ == old(self)@.after_prev_entry(),
    {
        if self.entry.len() == 0 || self.selected_index >= self.entry.len() {
            return;
        }
        let ghost es = self@.entry;
        proof {
            lemma_column(es, self.selected_index as int);
        }
        let current = self.entry[self.selected_index].status;
        let in_current = self.get_entries_by_status(current);
        if let Some(pos) = position_of(&in_current, self.selected_index) {
            assert(rank(es, column(es, current)[pos as int] as int) == pos);
            if pos > 0 {
                self.selected_index = in_current[pos - 1];
            } else {
                let mut probe = current.prev();
                let mut k: usize = 0;
                while k < 3
                    invariant
                        self@ == old(self)@,
                        self@.entry == es,
                        self.selected_index < es.len(),
                        current == es[self.selected_index as int].status,
                        rank(es, self.selected_index as int) == 0,
                        k <= 2,
                        k == 0 ==> probe == current.pred(),
                        k == 1 ==> probe == current.pred().pred() && !nonempty(es, current.pred()),
                        k == 2 ==> probe == current && !nonempty(es, current.pred()) && !nonempty(
                            es,
                            current.pred().pred(),
                        ),
                    decreases 3 - k,
                {
                    let in_probe = self.get_entries_by_status(probe);
                    if in_probe.len() > 0 {
                        self.selected_index = in_probe[in_probe.len() - 1];
                        return;
                    }
                    probe = probe.prev();
                    k = k + 1;
                }
                self.selected_index = self.entry.len() - 1;
            }
        }
    }

    /// Jumps to the top of the next non-empty column among the two others.
    pub fn select_next_column(&mut self)
        ensures
            final(self)@ == old(self)@.after_next_column(),
    {
        if self.entry.len() == 0 || self.selected_index >= self.entry.len() {
            return;
        }
        let ghost es = self@.entry;
        let current = self.entry[self.selected_index].status;
        let mut probe = current.next();
        let mut k: usize = 0;
        while k < 2
            invariant
                self@ == old(self)@,
                self@.entry == es,
                self.selected_index < es.len(),
                current == es[self.selected_index as int].status,
                k <= 2,
                k == 0 ==> probe == current.succ(),
                k == 1 ==> probe == current.succ().succ() && !nonempty(es, current.succ()),
                k == 2 ==> !nonempty(es, current.succ()) && !nonempty(es, current.succ().succ()),
            decreases 2 - k,
        {
            let in_probe = self.get_entries_by_status(probe);
            if in_probe.len() > 0 {
                self.selected_index = in_probe[0];
                return;
            }
            probe = probe.next();
            k = k + 1;
        }
    }

    /// Jumps to the top of the previous non-empty column among the two others.
    pub fn select_prev_column(&mut self)
        ensures
            final(self)@ == old(self)@.after_prev_column(),
    {
        if self.entry.len() == 0 || self.selected_index >= self.entry.len() {
            return;
        }
        let ghost es = self@.entry;
        let current = self.entry[self.selected_index].status;
        let mut probe = current.prev();
        let mut k: usize = 0;
        while k < 2
            invariant
                self@ == old(self)@,
                self@.entry == es,
                self.selected_index < es.len(),
                current == es[self.selected_index as int].status,
                k <= 2,
                k == 0 ==> probe == current.pred(),
                k == 1 ==> probe == current.pred().pred() && !nonempty(es, current.pred()),
                k == 2 ==> !nonempty(es, current.pred()) && !nonempty(es, current.pred().pred()),
            decreases 2 - k,
        {
            let in_probe = self.get_entries_by_status(probe);
            if in_probe.len() > 0 {
                self.selected_index = in_probe[0];
                return;
            }
            probe = probe.prev();
            k = k + 1;
        }
    }

    /// Posts `msg` as the error message, stamped with the current clock.
    pub fn post_error(&mut self, msg: String)
        ensures
            final(self)@ == old(self)@.post(msg@),
    {
        self.error = Some(msg);
        self.last_error_time = Some(self.clock);
    }

    /// Advances the clock to `now`, in seconds, and clears the error message
    /// once it has been shown for longer than `ERROR_POPUP_DURATION`.
    pub fn tick(&mut self, now: u64)
        ensures
            final(self)@ == old(self)@.after_tick(now),
    {
        self.clock = now;
        if let Some(t) = self.last_error_time {
            if now >= t && now - t > ERROR_POPUP_DURATION {
                self.error = None;
                self.last_error_time = None;
            }
        }
    }

    /// Posts "Failed to <action>: <cause>" for a write that the store refused.
    /// Nothing else changes.
    pub fn report_store_failure(&mut self, op: &StoreOp, cause: &str)
        ensures
            final(self)@ == old(self)@.post(failure_message(op@, cause@)),
    {
        let mut msg = String::from_str("Failed to ");
        match op {
            StoreOp::Add(_) => msg.append("add entry to database"),
            StoreOp::Update(_) => msg.append("update entry in database"),
            StoreOp::Delete(_) => msg.append("delete entry from database"),
        }
        msg.append(": ");
        msg.append(cause);
        self.post_error(msg);
    }

    /// Hands over the writes owed to the store, oldest first.
    pub fn take_pending(&mut self) -> (r: Vec<StoreOp>)
        ensures
            r@.map_values(|o: StoreOp| o@) == old(self)@.pending,
            final(self)@ == (AppView { pending: Seq::empty(), ..old(self)@ }),
    {
        let mut r: Vec<StoreOp> = Vec::new();
        std::mem::swap(&mut r, &mut self.pending);
        assert(self@.pending =~= Seq::empty());
        r
    }

    fn title_exists(&self, title: &String) -> (r: bool)
        ensures
            r == self@.title_taken(title@),
    {
        let mut i: usize = 0;
        while i < self.entry.len()
            invariant
                i <= self.entry.len(),
                forall|j: int| 0 <= j < i ==> self@.entry[j].title != title@,
            decreases self.entry.len() - i,
        {
            if self.entry[i].title == *title {
                assert(self@.entry[i as int].title == title@);
                return true;
            }
            i = i + 1;
        }
        let mut k: usize = 0;
        while k < self.pending.len()
            invariant
                k <= self.pending.len(),
                forall|j: int| 0 <= j < self.entry.len() ==> self@.entry[j].title != title@,
                forall|j: int|
                    0 <= j < k ==> !adds_title(#[trigger] self@.pending[j], title@),
            decreases self.pending.len() - k,
        {
            if let StoreOp::Add(e) = &self.pending[k] {
                if e.title == *title {
                    assert(self@.pending[k as int] == StoreOpView::Add(e@));
                    return true;
                }
            }
            k = k + 1;
        }
        false
    }

    fn id_exists(&self, id: u128) -> (r: bool)
        ensures
            r == self@.id_in_use(id),
    {
        let mut i: usize = 0;
        while i < self.entry.len()
            invariant
                i <= self.entry.len(),
                forall|j: int| 0 <= j < i ==> self@.entry[j].id != id,
            decreases self.entry.len() - i,
        {
            if self.entry[i].id == id {
                assert(self@.entry[i as int].id == id);
                return true;
            }
            i = i + 1;
        }
        let mut k: usize = 0;
        while k < self.pending.len()
            invariant
                k <= self.pending.len(),
                forall|j: int| 0 <= j < self.entry.len() ==> self@.entry[j].id != id,
                forall|j: int|
                    0 <= j < k ==> !adds_id(#[trigger] self@.pending[j], id),
            decreases self.pending.len() - k,
        {
            if let StoreOp::Add(e) = &self.pending[k] {
                if e.id == id {
                    assert(self@.pending[k as int] == StoreOpView::Add(e@));
                    return true;
                }
            }
            k = k + 1;
        }
        false
    }

    /// The first of `draws` that no entry on the board and no waiting
    /// addition uses.
    pub fn first_unused(&self, draws: &Vec<u128>) -> (r: Option<u128>)
        ensures
            r == self@.first_unused_from(draws@, 0),
    {
        let mut i: usize = 0;
        while i < draws.len()
            invariant
                i <= draws.len(),
                self@.first_unused_from(draws@, i as nat) == self@.first_unused_from(draws@, 0),
            decreases draws.len() - i,
        {
            if !self.id_exists(draws[i]) {
                return Some(draws[i]);
            }
            i = i + 1;
        }
        None
    }

    /// Asks the store to add an entry titled `title` at Planning, season 1,
    /// episode 0, keyed `id`; the entry joins the board when the store takes
    /// it (see `finish_write`). A title already taken (exact match, on the
    /// board or in a waiting addition) is refused with an error message, and
    /// so is an identifier already in use; nothing else changes then.
    pub fn add_entry_keyed(&mut self, title: String, id: u128)
        ensures
            final(self)@ == old(self)@.after_add(title@, id),
    {
        let ghost t = title;
        if self.title_exists(&title) {
            let mut msg = String::from_str("Entry with title '");
            msg.append(title.as_str());
            msg.append("' already exists!");
            self.post_error(msg);
            return;
        }
        if self.id_exists(id) {
            self.post_error(String::from_str("Failed to add entry: no unused identifier"));
            return;
        }
        let e = Entry { id, title, season: 1, episode: 0, status: Status::Planning };
        let ghost e_view = e@;
        self.pending.push(StoreOp::Add(e));
        assert(self@.pending =~= old(self)@.pending.push(StoreOpView::Add(e_view)));
        assert(self@ == old(self)@.after_add(t@, id));
    }

    /// Asks the store to add an entry titled `title`, keyed by the first of
    /// the drawn identifiers `draws` that is not in use; when all are in use
    /// (or none was drawn) the addition is refused with an error message.
    pub fn add_entry_drawn(&mut self, title: String, draws: &Vec<u128>)
        ensures
            final(self)@ == old(self)@.after_add_drawn(title@, draws@),
    {
        if self.title_exists(&title) {
            self.add_entry_keyed(title, 0);
            return;
        }
        match self.first_unused(draws) {
            Some(id) => self.add_entry_keyed(title, id),
            None => self.post_error(String::from_str("Failed to add entry: no unused identifier")),
        }
    }

    /// Asks the store to add an entry titled `title`, keyed by the first
    /// unused of three random identifiers (see `add_entry_drawn`).
    pub fn add_entry(&mut self, title: String)
        ensures
            exists|draws: Seq<u128>|
                {
                    &&& draws.len() == 3
                    &&& forall|i: int| 0 <= i < 3 ==> is_v4(#[trigger] draws[i])
                    &&& final(self)@ == old(self)@.after_add_drawn(title@, draws)
                },
            old(self)@.title_taken(title@) ==> final(self)@.entry == old(self)@.entry
                && final(self)@.pending == old(self)@.pending
                && final(self)@.error == Some(duplicate_message(title@)),
    {
        let mut draws: Vec<u128> = Vec::new();
        draws.push(new_entry_id());
        draws.push(new_entry_id());
        draws.push(new_entry_id());
        self.add_entry_drawn(title, &draws);
        assert(is_v4(draws@[0]) && is_v4(draws@[1]) && is_v4(draws@[2]));
    }

    /// Takes the store's answer to the write `op`: `Ok` when it took the
    /// write, else the cause of the refusal. An accepted addition joins the
    /// board and is selected. A refusal posts "Failed to <action>: <cause>";
    /// a refused addition leaves the entries and the selection as they were,
    /// while any other refused change stays in memory.
    pub fn finish_write(&mut self, op: &StoreOp, result: Result<(), String>)
        ensures
            final(self)@ == old(self)@.after_write(
                op@,
                match result {
                    Ok(_) => None,
                    Err(cause) => Some(cause@),
                },
            ),
    {
        match result {
            Ok(_) => {
                if let StoreOp::Add(e) = op {
                    let entry = e.clone();
                    self.entry.push(entry);
                    self.selected_index = self.entry.len() - 1;
                    assert(self@.entry =~= old(self)@.entry.push(e@));
                }
            },
            Err(cause) => {
                self.report_store_failure(op, cause.as_str());
            },
        }
    }

    /// Deletes the selected entry and owes the store its deletion.
    pub fn remove_entry(&mut self)
        ensures
            final(self)@ == old(self)@.after_remove(),
            old(self)@.wf() ==> final(self)@.wf(),
    {
        if self.entry.len() > 0 && self.selected_index < self.entry.len() {
            let id = self.entry[self.selected_index].id;
            self.entry.remove(self.selected_index);
            if self.selected_index >= self.entry.len() && self.selected_index > 0 {
                self.selected_index = self.selected_index - 1;
            }
            self.pending.push(StoreOp::Delete(id));
            assert(self@.entry =~= old(self)@.entry.remove(old(self).selected_index as int));
            assert(self@.pending =~= old(self)@.pending.push(StoreOpView::Delete(id)));
        }
    }

    fn update_selected(&mut self, e: Entry)
        requires
            old(self)@.has_selection(),
        ensures
            final(self)@ == old(self)@.with_selected(e@),
    {
        let record = e.clone();
        let i = self.selected_index;
        self.entry[i] = e;
        self.pending.push(StoreOp::Update(record));
        assert(self@.entry =~= old(self)@.entry.update(i as int, e@));
        assert(self@.pending =~= old(self)@.pending.push(StoreOpView::Update(e@)));
    }

    /// Puts the selected entry in the column of `status`.
    pub fn move_to(&mut self, status: Status)
        ensures
            final(self)@ == old(self)@.after_move_to(status),
    {
        if self.selected_index < self.entry.len() {
            let mut e = self.entry[self.selected_index].clone();
            e.status = status;
            self.update_selected(e);
        }
    }

    pub fn next_episode(&mut self)
        ensures
            final(self)@ == old(self)@.after_next_episode(),
    {
        if self.selected_index < self.entry.len() {
            let mut e = self.entry[self.selected_index].clone();
            if e.episode < u32::MAX {
                e.episode = e.episode + 1;
            }
            self.update_selected(e);
        }
    }

    pub fn prev_episode(&mut self)
        ensures
            final(self)@ == old(self)@.after_prev_episode(),
            old(self)@.has_selection() && old(self)@.selected().season >= 1
                ==> final(self)@.selected().season >= 1,
    {
        if self.selected_index < self.entry.len() {
            let mut e = self.entry[self.selected_index].clone();
            if e.episode > 0 {
                e.episode = e.episode - 1;
            } else if e.season > 1 {
                e.season = e.season - 1;
                e.episode = 0;
            }
            self.update_selected(e);
        }
    }

    pub fn next_season(&mut self)
        ensures
            final(self)@ == old(self)@.after_next_season(),
    {
        if self.selected_index < self.entry.len() {
            let mut e = self.entry[self.selected_index].clone();
            if e.season < u32::MAX {
                e.season = e.season + 1;
            }
            e.episode = 0;
            self.update_selected(e);
        }
    }

    /// Gives the selected entry a new title; titles are not checked for
    /// duplicates here.
    pub fn edit_entry_title(&mut self, new_title: String)
        ensures
            final(self)@ == old(self)@.after_edit_title(new_title@),
    {
        if self.selected_index < self.entry.len() {
            let mut e = self.entry[self.selected_index].clone();
            e.title = new_title;
            self.update_selected(e);
        }
    }

    /// Exchanges entries `a` and `b`, selects `b`, and owes the store both.
    fn swap_entries(&mut self, a: usize, b: usize)
        requires
            a < old(self).entry.len(),
            b < old(self).entry.len(),
        ensures
            final(self)@ == old(self)@.swapped(a as int, b as int),
    {
        let ea = self.entry[a].clone();
        let eb = self.entry[b].clone();
        self.entry[a] = eb;
        self.entry[b] = ea;
        self.selected_index = b;
        let first = self.entry[a].clone();
        let second = self.entry[b].clone();
        self.pending.push(StoreOp::Update(first));
        self.pending.push(StoreOp::Update(second));
        let ghost es = old(self)@.entry.update(a as int, old(self)@.entry[b as int]).update(
            b as int,
            old(self)@.entry[a as int],
        );
        assert(self@.entry =~= es);
        assert(self@.pending =~= old(self)@.pending.push(StoreOpView::Update(es[a as int])).push(
            StoreOpView::Update(es[b as int]),
        ));
    }

    /// Swaps the selected entry with the one above it in its column.
    pub fn move_entry_up_in_column(&mut self)
        ensures
            final(self)@ == old(self)@.after_move_up(),
    {
        if self.entry.len() == 0 || self.selected_index >= self.entry.len() {
            return;
        }
        let ghost es = self@.entry;
        proof {
            lemma_column(es, self.selected_index as int);
        }
        let current = self.entry[self.selected_index].status;
        let in_current = self.get_entries_by_status(current);
        if let Some(pos) = position_of(&in_current, self.selected_index) {
            assert(rank(es, column(es, current)[pos as int] as int) == pos);
            if pos > 0 {
                self.swap_entries(in_current[pos], in_current[pos - 1]);
            }
        }
    }

    /// Swaps the selected entry with the one below it in its column.
    pub fn move_entry_down_in_column(&mut self)
        ensures
            final(self)@ == old(self)@.after_move_down(),
    {
        if self.entry.len() == 0 || self.selected_index >= self.entry.len() {
            return;
        }
        let ghost es = self@.entry;
        proof {
            lemma_column(es, self.selected_index as int);
        }
        let current = self.entry[self.selected_index].status;
        let in_current = self.get_entries_by_status(current);
        if let Some(pos) = position_of(&in_current, self.selected_index) {
            assert(rank(es, column(es, current)[pos as int] as int) == pos);
            if pos + 1 < in_current.len() {
                self.swap_entries(in_current[pos], in_current[pos + 1]);
            }
        }
    }
}

} // verus!
