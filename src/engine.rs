//! The mode controller: one key event at a time, it moves the cursor, edits
//! the line buffer, tracks the selection and the filter, and tells the caller
//! what outside work to do.
use vstd::prelude::*;
use crate::edit::EditBuffer;
use crate::history::HistoryStack;
use crate::listing::{
    Entry, EntryView, FileType, SortKey, chars_of, filter_listing, filtered, has_substring,
    listing_view,
};
use crate::selection::SelectionRange;
use crate::state::Num;
use crate::words::{split_words, words, words_view};

verus! {

/// What a line being edited is for.
#[derive(Clone, Copy, Debug, PartialEq, Eq, Structural)]
pub enum EditKind {
    Rename,
    NewDirectory,
    Filter,
    Command,
}

/// What a yes/no prompt confirms.
#[derive(Clone, Copy, Debug, PartialEq, Eq, Structural)]
pub enum ConfirmAction {
    Delete,
    EmptyTrash,
}

/// The interaction state that decides what a key does.
#[derive(Clone, Copy, Debug, PartialEq, Eq, Structural)]
pub enum Mode {
    Browse,
    VisualSelect,
    LineEdit(EditKind),
    ConfirmPrompt(ConfirmAction),
    HelpView,
    /// `Z` was typed; a second `Z` quits.
    QuitPending,
}

/// A key event, as the terminal reports it.
#[derive(Clone, Copy, Debug, PartialEq, Eq, Structural)]
pub enum Key {
    Char(char),
    Up,
    Down,
    Left,
    Right,
    Enter,
    Esc,
    Backspace,
    CtrlC,
    Other,
}

/// Outside work that a key asks for.
#[derive(Debug)]
pub enum Action {
    /// Nothing to do outside.
    Idle,
    Quit,
    /// Open the file at this index with its associated program.
    Open(usize),
    /// Scan the directory at this index and hand the result to `descend`.
    Descend(usize),
    /// Scan the parent directory, if there is one, and hand it to `ascend`.
    Ascend,
    /// Delete the entry at this index, then hand the new scan to `refresh`.
    Delete(usize),
    /// Paste the yanked entry into the current directory.
    Paste,
    /// Put the name of the entry at this index on the clipboard.
    CopyName(usize),
    Rename { index: usize, name: Vec<char> },
    MakeDir(Vec<char>),
    ChangeDir(Vec<char>),
    Run { program: Vec<char>, args: Vec<Vec<char>> },
    /// Scan again with this key and hand the result to `reset_listing`.
    Sort(SortKey),
    EmptyTrash,
    /// Show the selected entries in the info bar.
    ShowSelection,
}

/// What the terminal should show: the visible part of the listing, where the
/// pointer stands, and the line being edited.
#[derive(Debug)]
pub struct RenderIntent {
    /// Index of the first visible entry.
    pub first: usize,
    /// Number of visible entries.
    pub count: usize,
    /// Viewport row of the pointer; none for an empty listing.
    pub pointer_row: Option<usize>,
    /// The line being edited and the cursor's offset in it.
    pub prompt: Option<(Vec<char>, usize)>,
    pub mode: Mode,
}

pub open spec fn is_editable_char(c: char) -> bool {
    ' ' <= c <= '~'
}

/// Keys that move the cursor in browse and visual-select modes.
pub open spec fn is_nav(key: Key) -> bool {
    key == Key::Char('j') || key == Key::Down || key == Key::Char('k') || key == Key::Up || key
        == Key::Char('g') || key == Key::Char('G')
}

/// The cursor after a movement key.
pub open spec fn nav(c: Num, key: Key, len: nat, cap: nat) -> Num {
    if key == Key::Char('j') || key == Key::Down {
        c.down(len, cap)
    } else if key == Key::Char('k') || key == Key::Up {
        c.up()
    } else if key == Key::Char('g') {
        Num::top()
    } else if key == Key::Char('G') {
        c.bottom(len, cap)
    } else {
        c
    }
}

pub open spec fn none_selected(v: Seq<EntryView>) -> bool {
    forall|i: int| 0 <= i < v.len() ==> !(#[trigger] v[i]).selected
}

/// `new` is `old` with the selected flag of entry `i` set to `sel(i)`.
pub open spec fn same_but_flags(old: Seq<EntryView>, new: Seq<EntryView>, sel: spec_fn(int) -> bool) -> bool {
    &&& new.len() == old.len()
    &&& forall|i: int|
        0 <= i < new.len() ==> #[trigger] new[i] == (EntryView { selected: sel(i), ..old[i] })
}

/// The action renames entry `i` to `name`.
pub open spec fn renames(r: Action, i: usize, name: Seq<char>) -> bool {
    match r {
        Action::Rename { index, name: n } => index == i && n@ == name,
        _ => false,
    }
}

pub open spec fn makes_dir(r: Action, name: Seq<char>) -> bool {
    match r {
        Action::MakeDir(n) => n@ == name,
        _ => false,
    }
}

pub open spec fn changes_dir(r: Action, path: Seq<char>) -> bool {
    match r {
        Action::ChangeDir(p) => p@ == path,
        _ => false,
    }
}

pub open spec fn runs(r: Action, program: Seq<char>, args: Seq<Seq<char>>) -> bool {
    match r {
        Action::Run { program: p, args: a } => p@ == program && words_view(a@) == args,
        _ => false,
    }
}

/// What `Enter` on a command line asks for.
pub open spec fn command_outcome(line: Seq<char>, r: Action) -> bool {
    let w = words(line);
    if w.len() == 0 {
        r is Idle
    } else if line == seq!['q'] {
        r is Quit
    } else if w[0] == seq!['c', 'd'] {
        if w.len() >= 2 {
            changes_dir(r, w[1])
        } else {
            r is Idle
        }
    } else {
        runs(r, w[0], w.drop_first())
    }
}

/// Keeping only the entries that meet `p` drops nothing from a listing
/// whose entries all meet it.
proof fn lemma_filter_keeps_all(s: Seq<EntryView>, p: spec_fn(EntryView) -> bool)
    requires
        forall|i: int| 0 <= i < s.len() ==> p(#[trigger] s[i]),
    ensures
        s.filter(p) == s,
    decreases s.len(),
{
    reveal_with_fuel(Seq::filter, 1);
    if s.len() > 0 {
        lemma_filter_keeps_all(s.drop_last(), p);
        assert(s.drop_last().push(s.last()) =~= s);
    }
}

/// A filter of a listing with nothing selected has nothing selected.
proof fn lemma_filter_none_selected(s: Seq<EntryView>, p: spec_fn(EntryView) -> bool)
    requires
        none_selected(s),
    ensures
        none_selected(s.filter(p)),
    decreases s.len(),
{
    reveal_with_fuel(Seq::filter, 1);
    if s.len() > 0 {
        assert(none_selected(s.drop_last()));
        lemma_filter_none_selected(s.drop_last(), p);
    }
}

/// Sets the selected flag of each entry to whether `sel` holds its index.
fn mark_range(v: &mut Vec<Entry>, sel: SelectionRange)
    ensures
        same_but_flags(listing_view(old(v)@), listing_view(final(v)@), |i: int| sel.contains(i)),
{
    let ghost start = listing_view(v@);
    let mut i: usize = 0;
    while i < v.len()
        invariant
            i <= v@.len(),
            v@.len() == start.len(),
            forall|j: int|
                0 <= j < v@.len() ==> #[trigger] listing_view(v@)[j] == (EntryView {
                    selected: if j < i {
                        sel.contains(j)
                    } else {
                        start[j].selected
                    },
                    ..start[j]
                }),
        decreases v@.len() - i,
    {
        let b = sel.is_selected(i);
        let ghost prev = listing_view(v@);
        v[i].selected = b;
        assert(listing_view(v@) =~= prev.update(i as int, EntryView { selected: b, ..prev[i as int] }));
        i = i + 1;
    }
}

/// Clears every selected flag.
fn clear_flags(v: &mut Vec<Entry>)
    ensures
        same_but_flags(listing_view(old(v)@), listing_view(final(v)@), |i: int| false),
        none_selected(listing_view(final(v)@)),
{
    let ghost start = listing_view(v@);
    let mut i: usize = 0;
    while i < v.len()
        invariant
            i <= v@.len(),
            v@.len() == start.len(),
            forall|j: int|
                0 <= j < v@.len() ==> #[trigger] listing_view(v@)[j] == (EntryView {
                    selected: if j < i {
                        false
                    } else {
                        start[j].selected
                    },
                    ..start[j]
                }),
        decreases v@.len() - i,
    {
        let ghost prev = listing_view(v@);
        v[i].selected = false;
        assert(listing_view(v@) =~= prev.update(i as int, EntryView { selected: false, ..prev[i as int] }));
        i = i + 1;
    }
}

/// A copy of every entry.
fn copy_listing(v: &Vec<Entry>) -> (r: Vec<Entry>)
    ensures
        listing_view(r@) == listing_view(v@),
{
    let mut r: Vec<Entry> = Vec::new();
    let mut i: usize = 0;
    while i < v.len()
        invariant
            i <= v@.len(),
            listing_view(r@) == listing_view(v@).take(i as int),
        decreases v@.len() - i,
    {
        let ghost prev = listing_view(r@);
        r.push(v[i].duplicate());
        assert(listing_view(r@) =~= prev.push(v@[i as int].view()));
        assert(listing_view(v@).take(i + 1) =~= listing_view(v@).take(i as int).push(v@[i as int].view()));
        i = i + 1;
    }
    assert(listing_view(v@).take(i as int) =~= listing_view(v@));
    r
}

/// What every handler leaves alone.
pub open spec fn keeps(old: Engine, new: Engine) -> bool {
    &&& new.cap == old.cap
    &&& new.history.view() == old.history.view()
    &&& new.warn_delete == old.warn_delete
}

/// What a key does in browse mode.
pub open spec fn browse_post(old: Engine, new: Engine, key: Key, r: Action) -> bool {
    let len = old.len();
    let i = old.cursor.index;
    &&& (is_nav(key) ==> {
        &&& new.cursor == nav(old.cursor, key, len, old.cap as nat)
        &&& new.mode == Mode::Browse
        &&& new.items() == old.items()
        &&& r is Idle
    })
    &&& ((key == Key::Char('l') || key == Key::Enter || key == Key::Right) ==> {
        &&& new.cursor == old.cursor
        &&& new.mode == Mode::Browse
        &&& (len == 0 ==> r is Idle)
        &&& (len > 0 && old.items()[i as int].file_type == FileType::Directory ==> r
            == Action::Descend(i))
        &&& (len > 0 && old.items()[i as int].file_type != FileType::Directory ==> r
            == Action::Open(i))
    })
    &&& ((key == Key::Char('h') || key == Key::Left) ==> r is Ascend && new.cursor == old.cursor)
    &&& (key == Key::Char('V') && len > 0 ==> {
        &&& new.mode == Mode::VisualSelect
        &&& new.selection == SelectionRange::new_spec(i)
        &&& new.cursor == old.cursor
        &&& same_but_flags(old.items(), new.items(), |j: int| j == i)
    })
    &&& (key == Key::Char('/') ==> {
        &&& new.mode == Mode::LineEdit(EditKind::Filter)
        &&& listing_view(new.original@) == old.items()
        &&& new.items() == old.items()
        &&& new.buffer.text@ == Seq::<char>::empty()
    })
    &&& (key == Key::Char('c') && len > 0 ==> {
        &&& new.mode == Mode::LineEdit(EditKind::Rename)
        &&& new.buffer.text@ == old.items()[i as int].name
        &&& new.cursor == old.cursor
    })
    &&& (key == Key::Char('m') ==> new.mode == Mode::LineEdit(EditKind::NewDirectory)
        && new.buffer.text@ == Seq::<char>::empty())
    &&& (key == Key::Char(':') ==> new.mode == Mode::LineEdit(EditKind::Command)
        && new.buffer.text@ == Seq::<char>::empty())
    &&& (key == Key::Char('D') && len > 0 ==> if old.warn_delete {
        new.mode == Mode::ConfirmPrompt(ConfirmAction::Delete) && r is Idle
    } else {
        new.mode == Mode::Browse && r == Action::Delete(i)
    })
    &&& (key == Key::Char('E') ==> new.mode == Mode::ConfirmPrompt(ConfirmAction::EmptyTrash))
    &&& (key == Key::Char('H') ==> new.mode == Mode::HelpView)
    &&& (key == Key::Char('Z') ==> new.mode == Mode::QuitPending)
    &&& (key == Key::Char('t') ==> new.sort_key != old.sort_key && r == Action::Sort(new.sort_key))
    &&& (key == Key::CtrlC && len > 0 ==> r == Action::CopyName(i))
    &&& (key == Key::Char('y') && len > 0 ==> (new.item_buf matches Some(b) && b.view()
        == old.items()[i as int]))
    &&& (key == Key::Char('p') ==> (r is Paste <==> old.item_buf is Some))
    &&& (!is_nav(key) ==> new.cursor == old.cursor)
    &&& (key != Key::Char('V') ==> new.items() == old.items())
    &&& (!browse_enters_mode(old, key) ==> new.mode == Mode::Browse)
    &&& (!browse_acts(old, key) ==> r is Idle)
}

/// Keys that leave browse mode for another mode.
pub open spec fn browse_enters_mode(old: Engine, key: Key) -> bool {
    let len = old.len();
    ||| key == Key::Char('V') && len > 0
    ||| key == Key::Char('c') && len > 0
    ||| key == Key::Char('D') && len > 0 && old.warn_delete
    ||| key == Key::Char('/')
    ||| key == Key::Char('m')
    ||| key == Key::Char(':')
    ||| key == Key::Char('E')
    ||| key == Key::Char('H')
    ||| key == Key::Char('Z')
}

/// Keys that ask for outside work in browse mode.
pub open spec fn browse_acts(old: Engine, key: Key) -> bool {
    let len = old.len();
    ||| (key == Key::Char('l') || key == Key::Enter || key == Key::Right) && len > 0
    ||| key == Key::Char('h') || key == Key::Left
    ||| key == Key::Char('t')
    ||| key == Key::Char('D') && len > 0 && !old.warn_delete
    ||| key == Key::Char('p') && old.item_buf is Some
    ||| key == Key::CtrlC && len > 0
}

/// What a key does in visual-select mode.
pub open spec fn visual_post(old: Engine, new: Engine, key: Key, r: Action) -> bool {
    &&& (is_nav(key) ==> {
        &&& new.cursor == nav(old.cursor, key, old.len(), old.cap as nat)
        &&& new.mode == Mode::VisualSelect
        &&& new.selection.anchor == old.selection.anchor
        &&& new.selection.current == new.cursor.index
        &&& same_but_flags(old.items(), new.items(), |j: int| new.selection.contains(j))
        &&& r is Idle
    })
    &&& (key == Key::Esc ==> {
        &&& new.mode == Mode::Browse
        &&& new.cursor == old.cursor
        &&& same_but_flags(old.items(), new.items(), |j: int| false)
        &&& r is Idle
    })
    &&& (key == Key::Char('S') ==> new.mode == Mode::VisualSelect && r is ShowSelection)
    &&& (!is_nav(key) && key != Key::Esc ==> new.mode == Mode::VisualSelect && new.items()
        == old.items() && new.cursor == old.cursor && new.selection == old.selection)
    &&& (!is_nav(key) && key != Key::Esc && key != Key::Char('S') ==> r is Idle)
}

/// What a key does while a line is edited for `kind`.
pub open spec fn line_edit_post(old: Engine, new: Engine, kind: EditKind, key: Key, r: Action) -> bool {
    let t = old.buffer.text@;
    let c = old.buffer.cursor;
    let edits = key == Key::Backspace || (key is Char && is_editable_char(key->Char_0));
    &&& (key != Key::Enter && key != Key::Esc ==> {
        &&& new.mode == old.mode
        &&& r is Idle
        &&& listing_view(new.original@) == listing_view(old.original@)
    })
    &&& (key != Key::Enter && key != Key::Esc && (kind != EditKind::Filter || !edits) ==> {
        &&& new.items() == old.items()
        &&& new.cursor == old.cursor
    })
    &&& (kind == EditKind::Filter && edits ==> new.cursor == Num::top())
    &&& (key is Char && is_editable_char(key->Char_0) ==> {
        &&& new.mode == old.mode
        &&& new.buffer.text@ == t.insert(c as int, key->Char_0)
        &&& new.buffer.cursor == c + 1
        &&& r is Idle
    })
    &&& (key is Char && !is_editable_char(key->Char_0) ==> {
        &&& new.mode == old.mode
        &&& new.buffer.text@ == t
        &&& new.items() == old.items()
        &&& r is Idle
    })
    &&& (key == Key::Backspace ==> {
        &&& new.mode == old.mode
        &&& (c > 0 ==> new.buffer.text@ == t.remove(c - 1) && new.buffer.cursor == c - 1)
        &&& (c == 0 ==> new.buffer.text@ == t && new.buffer.cursor == 0)
        &&& r is Idle
    })
    &&& (key == Key::Left ==> {
        &&& new.mode == old.mode
        &&& new.buffer.text@ == t
        &&& new.buffer.cursor == (if c > 0 { c - 1 } else { 0 })
    })
    &&& (key == Key::Right ==> {
        &&& new.mode == old.mode
        &&& new.buffer.text@ == t
        &&& new.buffer.cursor == (if c < t.len() { c + 1 } else { c as int })
    })
    &&& (key == Key::Esc ==> {
        &&& new.mode == Mode::Browse
        &&& r is Idle
        &&& (kind == EditKind::Filter ==> new.items() == listing_view(old.original@)
            && new.cursor == Num::top())
        &&& (kind != EditKind::Filter ==> new.items() == old.items() && new.cursor == old.cursor)
    })
    &&& (key == Key::Enter ==> {
        &&& new.mode == Mode::Browse
        &&& (kind == EditKind::Rename ==> renames(r, old.cursor.index, t) && new.items()
            == old.items())
        &&& (kind == EditKind::NewDirectory ==> makes_dir(r, t) && new.items() == old.items())
        &&& (kind == EditKind::Filter ==> r is Idle && new.items() == old.items() && new.cursor
            == Num::top())
        &&& (kind == EditKind::Command ==> command_outcome(t, r) && new.items() == old.items())
    })
}

/// What a key does at a yes/no prompt for `a`.
pub open spec fn confirm_post(old: Engine, new: Engine, a: ConfirmAction, key: Key, r: Action) -> bool {
    &&& new.mode == Mode::Browse
    &&& new.items() == old.items()
    &&& new.cursor == old.cursor
    &&& ((key == Key::Char('y') || key == Key::Char('Y')) && a == ConfirmAction::Delete ==> r
        == Action::Delete(old.cursor.index))
    &&& ((key == Key::Char('y') || key == Key::Char('Y')) && a == ConfirmAction::EmptyTrash ==> r
        is EmptyTrash)
    &&& (key != Key::Char('y') && key != Key::Char('Y') ==> r is Idle)
}

/// What a key does once `Z` was typed.
pub open spec fn quit_pending_post(old: Engine, new: Engine, key: Key, r: Action) -> bool {
    &&& new.items() == old.items()
    &&& new.cursor == old.cursor
    &&& (key == Key::Char('Z') ==> r is Quit)
    &&& (key is Char && key != Key::Char('Z') || key == Key::Esc ==> new.mode == Mode::Browse
        && r is Idle)
    &&& (!(key is Char) && key != Key::Esc ==> new.mode == Mode::QuitPending && r is Idle)
}

/// The action that `Enter` on a command line asks for: nothing for an empty
/// line, quitting for `q`, a change of directory for `cd <path>`, and
/// otherwise running the first word with the others as arguments.
pub fn command_action(line: &Vec<char>) -> (r: Action)
    ensures
        command_outcome(line@, r),
{
    let mut w = split_words(line);
    if w.len() == 0 {
        return Action::Idle;
    }
    if line.len() == 1 && line[0] == 'q' {
        assert(line@ =~= seq!['q']);
        return Action::Quit;
    }
    assert(line@ != seq!['q']) by {
        if line@ == seq!['q'] {
            assert(line@.len() == 1 && line@[0] == 'q');
        }
    }
    let ghost all = words_view(w@);
    let first = w.remove(0);
    assert(words_view(w@) =~= all.drop_first());
    if first.len() == 2 && first[0] == 'c' && first[1] == 'd' {
        assert(first@ =~= seq!['c', 'd']);
        if w.len() >= 1 {
            let path = w.remove(0);
            return Action::ChangeDir(path);
        }
        return Action::Idle;
    }
    assert(first@ != seq!['c', 'd']) by {
        if first@ == seq!['c', 'd'] {
            assert(first@.len() == 2 && first@[0] == 'c' && first@[1] == 'd');
        }
    }
    Action::Run { program: first, args: w }
}

/// The state that the event loop owns.
pub struct Engine {
    pub mode: Mode,
    pub cursor: Num,
    /// Rows of the viewport.
    pub cap: usize,
    pub listing: Vec<Entry>,
    /// The listing as it was when filter mode began.
    pub original: Vec<Entry>,
    pub buffer: EditBuffer,
    pub selection: SelectionRange,
    pub history: HistoryStack,
    pub sort_key: SortKey,
    /// Ask before deleting.
    pub warn_delete: bool,
    /// The entry yanked for a later paste.
    pub item_buf: Option<Entry>,
}

impl Engine {
    pub open spec fn len(&self) -> nat {
        self.listing@.len()
    }

    pub open spec fn items(&self) -> Seq<EntryView> {
        listing_view(self.listing@)
    }

    pub open spec fn wf(&self) -> bool {
        &&& self.cursor.wf(self.len(), self.cap as nat)
        &&& self.buffer.wf()
        &&& (self.mode == Mode::VisualSelect ==> {
            &&& self.selection.current == self.cursor.index
            &&& self.selection.anchor < self.len()
            &&& forall|i: int|
                0 <= i < self.len() ==> (#[trigger] self.items()[i]).selected
                    == self.selection.contains(i)
        })
        &&& (self.mode != Mode::VisualSelect ==> none_selected(self.items()))
        &&& (self.mode == Mode::LineEdit(EditKind::Rename) ==> self.len() > 0)
        &&& (self.mode == Mode::ConfirmPrompt(ConfirmAction::Delete) ==> self.len() > 0)
        &&& (self.mode == Mode::LineEdit(EditKind::Filter) ==> {
            &&& self.items() == filtered(listing_view(self.original@), self.buffer.text@)
            &&& none_selected(listing_view(self.original@))
        })
    }

    /// The listing and cursor at the start of a session: `cap` rows, the
    /// entries of the starting directory, nothing selected.
    pub fn new(listing: Vec<Entry>, cap: usize, warn_delete: bool) -> (r: Engine)
        requires
            cap >= 1,
        ensures
            r.wf(),
            r.mode == Mode::Browse,
            r.cursor == Num::top(),
            r.cap == cap,
            same_but_flags(listing_view(listing@), r.items(), |i: int| false),
            r.history.view().len() == 0,
    {
        let mut e = Engine {
            mode: Mode::Browse,
            cursor: Num::new(),
            cap,
            listing: Vec::new(),
            original: Vec::new(),
            buffer: EditBuffer::new(),
            selection: SelectionRange::new(0),
            history: HistoryStack::new(),
            sort_key: SortKey::Name,
            warn_delete,
            item_buf: None,
        };
        e.reset_listing(listing);
        e
    }

    /// Handles a key in browse mode.
    pub fn handle_browse(&mut self, key: Key) -> (r: Action)
        requires
            old(self).wf(),
            old(self).mode == Mode::Browse,
        ensures
            final(self).wf(),
            keeps(*old(self), *final(self)),
            browse_post(*old(self), *final(self), key, r),
    {
        let len = self.listing.len();
        let cap = self.cap;
        let i = self.cursor.index;
        match key {
            Key::Char('j') | Key::Down => {
                self.cursor.move_down(len, cap);
                Action::Idle
            },
            Key::Char('k') | Key::Up => {
                self.cursor.move_up(len, cap);
                Action::Idle
            },
            Key::Char('g') => {
                self.cursor.move_top(len, cap);
                Action::Idle
            },
            Key::Char('G') => {
                self.cursor.move_bottom(len, cap);
                Action::Idle
            },
            Key::Char('l') | Key::Enter | Key::Right => {
                if len == 0 {
                    Action::Idle
                } else {
                    match self.listing[i].file_type {
                        FileType::Directory => Action::Descend(i),
                        _ => Action::Open(i),
                    }
                }
            },
            Key::Char('h') | Key::Left => Action::Ascend,
            Key::Char('V') => {
                if len > 0 {
                    self.selection = SelectionRange::new(i);
                    mark_range(&mut self.listing, self.selection);
                    self.mode = Mode::VisualSelect;
                }
                Action::Idle
            },
            Key::Char('t') => {
                self.sort_key = match self.sort_key {
                    SortKey::Name => SortKey::Time,
                    SortKey::Time => SortKey::Name,
                };
                Action::Sort(self.sort_key)
            },
            Key::Char('D') => {
                if len == 0 {
                    Action::Idle
                } else if self.warn_delete {
                    self.mode = Mode::ConfirmPrompt(ConfirmAction::Delete);
                    Action::Idle
                } else {
                    Action::Delete(i)
                }
            },
            Key::Char('y') => {
                if len > 0 {
                    self.item_buf = Some(self.listing[i].duplicate());
                }
                Action::Idle
            },
            Key::Char('p') => {
                if self.item_buf.is_some() {
                    Action::Paste
                } else {
                    Action::Idle
                }
            },
            Key::Char('c') => {
                if len > 0 {
                    let name = chars_of(self.listing[i].file_name.as_str());
                    self.buffer = EditBuffer::with_text(name);
                    self.mode = Mode::LineEdit(EditKind::Rename);
                }
                Action::Idle
            },
            Key::CtrlC => {
                if len > 0 {
                    Action::CopyName(i)
                } else {
                    Action::Idle
                }
            },
            Key::Char('m') => {
                self.buffer = EditBuffer::new();
                self.mode = Mode::LineEdit(EditKind::NewDirectory);
                Action::Idle
            },
            Key::Char('E') => {
                self.mode = Mode::ConfirmPrompt(ConfirmAction::EmptyTrash);
                Action::Idle
            },
            Key::Char('/') => {
                self.original = copy_listing(&self.listing);
                self.buffer = EditBuffer::new();
                self.mode = Mode::LineEdit(EditKind::Filter);
                proof {
                    assert forall|e: EntryView| has_substring(e.name, Seq::<char>::empty()) by {
                        assert(e.name.subrange(0, 0 + Seq::<char>::empty().len() as int)
                            =~= Seq::<char>::empty());
                    }
                    lemma_filter_keeps_all(
                        listing_view(self.original@),
                        |e: EntryView| has_substring(e.name, Seq::<char>::empty()),
                    );
                }
                Action::Idle
            },
            Key::Char(':') => {
                self.buffer = EditBuffer::new();
                self.mode = Mode::LineEdit(EditKind::Command);
                Action::Idle
            },
            Key::Char('H') => {
                self.mode = Mode::HelpView;
                Action::Idle
            },
            Key::Char('Z') => {
                self.mode = Mode::QuitPending;
                Action::Idle
            },
            _ => Action::Idle,
        }
    }

    /// Handles a key in visual-select mode: movement keys extend the
    /// selection from the anchor to the new pointer position.
    pub fn handle_visual(&mut self, key: Key) -> (r: Action)
        requires
            old(self).wf(),
            old(self).mode == Mode::VisualSelect,
        ensures
            final(self).wf(),
            keeps(*old(self), *final(self)),
            visual_post(*old(self), *final(self), key, r),
    {
        let len = self.listing.len();
        let cap = self.cap;
        match key {
            Key::Char('j') | Key::Down | Key::Char('k') | Key::Up | Key::Char('g') | Key::Char(
                'G',
            ) => {
                match key {
                    Key::Char('j') | Key::Down => self.cursor.move_down(len, cap),
                    Key::Char('k') | Key::Up => self.cursor.move_up(len, cap),
                    Key::Char('g') => self.cursor.move_top(len, cap),
                    _ => self.cursor.move_bottom(len, cap),
                }
                self.selection.update(self.cursor.index);
                mark_range(&mut self.listing, self.selection);
                Action::Idle
            },
            Key::Char('S') => Action::ShowSelection,
            Key::Esc => {
                clear_flags(&mut self.listing);
                self.mode = Mode::Browse;
                Action::Idle
            },
            _ => Action::Idle,
        }
    }

    /// Recomputes the filtered listing from the snapshot and the keyword.
    fn apply_filter(&mut self)
        requires
            old(self).buffer.wf(),
            old(self).cap >= 1,
            old(self).mode == Mode::LineEdit(EditKind::Filter),
            none_selected(listing_view(old(self).original@)),
        ensures
            final(self).wf(),
            keeps(*old(self), *final(self)),
            final(self).mode == old(self).mode,
            final(self).buffer == old(self).buffer,
            final(self).cursor == Num::top(),
            listing_view(final(self).original@) == listing_view(old(self).original@),
    {
        self.listing = filter_listing(&self.original, &self.buffer.text);
        self.cursor = Num::new();
        proof {
            lemma_filter_none_selected(
                listing_view(self.original@),
                |e: EntryView| has_substring(e.name, self.buffer.text@),
            );
        }
    }

    /// Handles a key while a line is edited.
    pub fn handle_line_edit(&mut self, kind: EditKind, key: Key) -> (r: Action)
        requires
            old(self).wf(),
            old(self).mode == Mode::LineEdit(kind),
        ensures
            final(self).wf(),
            keeps(*old(self), *final(self)),
            line_edit_post(*old(self), *final(self), kind, key, r),
    {
        match key {
            Key::Char(c) => {
                if ' ' <= c && c <= '~' {
                    self.buffer.insert_char(c);
                    if kind == EditKind::Filter {
                        self.apply_filter();
                    }
                }
                Action::Idle
            },
            Key::Backspace => {
                self.buffer.backspace();
                if kind == EditKind::Filter {
                    self.apply_filter();
                }
                Action::Idle
            },
            Key::Left => {
                self.buffer.move_left();
                Action::Idle
            },
            Key::Right => {
                self.buffer.move_right();
                Action::Idle
            },
            Key::Esc => {
                if kind == EditKind::Filter {
                    let original = copy_listing(&self.original);
                    self.listing = original;
                    self.cursor = Num::new();
                }
                self.mode = Mode::Browse;
                Action::Idle
            },
            Key::Enter => {
                self.mode = Mode::Browse;
                match kind {
                    EditKind::Rename => {
                        let name = self.buffer.text.clone();
                        assert(name@ =~= self.buffer.text@);
                        Action::Rename { index: self.cursor.index, name }
                    },
                    EditKind::NewDirectory => {
                        let name = self.buffer.text.clone();
                        assert(name@ =~= self.buffer.text@);
                        Action::MakeDir(name)
                    },
                    EditKind::Filter => {
                        self.cursor = Num::new();
                        Action::Idle
                    },
                    EditKind::Command => command_action(&self.buffer.text),
                }
            },
            _ => Action::Idle,
        }
    }

    /// Handles a key at a yes/no prompt: only `y` or `Y` goes ahead.
    pub fn handle_confirm(&mut self, a: ConfirmAction, key: Key) -> (r: Action)
        requires
            old(self).wf(),
            old(self).mode == Mode::ConfirmPrompt(a),
        ensures
            final(self).wf(),
            keeps(*old(self), *final(self)),
            confirm_post(*old(self), *final(self), a, key, r),
    {
        self.mode = Mode::Browse;
        match key {
            Key::Char('y') | Key::Char('Y') => match a {
                ConfirmAction::Delete => Action::Delete(self.cursor.index),
                ConfirmAction::EmptyTrash => Action::EmptyTrash,
            },
            _ => Action::Idle,
        }
    }

    /// Handles a key after `Z`: a second `Z` quits, another character or
    /// `Esc` cancels.
    pub fn handle_quit_pending(&mut self, key: Key) -> (r: Action)
        requires
            old(self).wf(),
            old(self).mode == Mode::QuitPending,
        ensures
            final(self).wf(),
            keeps(*old(self), *final(self)),
            quit_pending_post(*old(self), *final(self), key, r),
    {
        match key {
            Key::Char('Z') => Action::Quit,
            Key::Char(_) | Key::Esc => {
                self.mode = Mode::Browse;
                Action::Idle
            },
            _ => Action::Idle,
        }
    }

    /// Dispatches a key to the handler of the current mode.
    pub fn handle_key(&mut self, key: Key) -> (r: Action)
        requires
            old(self).wf(),
        ensures
            final(self).wf(),
            keeps(*old(self), *final(self)),
            old(self).mode == Mode::Browse ==> browse_post(*old(self), *final(self), key, r),
            old(self).mode == Mode::VisualSelect ==> visual_post(*old(self), *final(self), key, r),
            forall|k: EditKind|
                old(self).mode == Mode::LineEdit(k) ==> line_edit_post(
                    *old(self),
                    *final(self),
                    k,
                    key,
                    r,
                ),
            forall|a: ConfirmAction|
                old(self).mode == Mode::ConfirmPrompt(a) ==> confirm_post(
                    *old(self),
                    *final(self),
                    a,
                    key,
                    r,
                ),
            old(self).mode == Mode::HelpView ==> final(self).mode == Mode::Browse && r is Idle
                && final(self).items() == old(self).items() && final(self).cursor == old(
                self,
            ).cursor,
            old(self).mode == Mode::QuitPending ==> quit_pending_post(
                *old(self),
                *final(self),
                key,
                r,
            ),
    {
        match self.mode {
            Mode::Browse => self.handle_browse(key),
            Mode::VisualSelect => self.handle_visual(key),
            Mode::LineEdit(kind) => self.handle_line_edit(kind, key),
            Mode::ConfirmPrompt(a) => self.handle_confirm(a, key),
            Mode::HelpView => {
                self.mode = Mode::Browse;
                Action::Idle
            },
            Mode::QuitPending => self.handle_quit_pending(key),
        }
    }

    /// What the terminal should show for the current state.
    pub fn render(&self) -> (r: RenderIntent)
        requires
            self.wf(),
        ensures
            r.first == self.cursor.skip,
            r.count == (if self.len() == 0 {
                0
            } else if self.len() - self.cursor.skip < self.cap {
                self.len() - self.cursor.skip
            } else {
                self.cap as int
            }),
            self.len() == 0 ==> r.pointer_row is None,
            self.len() > 0 ==> r.pointer_row == Some((self.cursor.index - self.cursor.skip) as usize),
            r.mode == self.mode,
            self.mode is LineEdit ==> (r.prompt matches Some(p) && p.0@ == self.buffer.text@ && p.1
                == self.buffer.cursor),
            !(self.mode is LineEdit) ==> r.prompt is None,
    {
        let len = self.listing.len();
        let skip = self.cursor.skip;
        let count = if len == 0 {
            0
        } else if len - skip < self.cap {
            len - skip
        } else {
            self.cap
        };
        let pointer_row = if len == 0 {
            None
        } else {
            Some(self.cursor.index - skip)
        };
        let prompt = match self.mode {
            Mode::LineEdit(_) => {
                let text = self.buffer.text.clone();
                assert(text@ =~= self.buffer.text@);
                Some((text, self.buffer.cursor))
            },
            _ => None,
        };
        RenderIntent { first: skip, count, pointer_row, prompt, mode: self.mode }
    }

    /// Takes a freshly scanned listing: nothing selected, cursor on the first
    /// entry, back to browsing.
    pub fn reset_listing(&mut self, listing: Vec<Entry>)
        requires
            old(self).wf(),
        ensures
            final(self).wf(),
            keeps(*old(self), *final(self)),
            final(self).mode == Mode::Browse,
            final(self).cursor == Num::top(),
            same_but_flags(listing_view(listing@), final(self).items(), |i: int| false),
    {
        self.listing = listing;
        clear_flags(&mut self.listing);
        self.cursor = Num::new();
        self.mode = Mode::Browse;
    }

    /// Takes the listing of the same directory after a change on disk; the
    /// cursor stays where it was if it still fits, else goes to the last
    /// entry.
    pub fn refresh(&mut self, listing: Vec<Entry>)
        requires
            old(self).wf(),
        ensures
            final(self).wf(),
            keeps(*old(self), *final(self)),
            final(self).mode == Mode::Browse,
            same_but_flags(listing_view(listing@), final(self).items(), |i: int| false),
            old(self).cursor.wf(listing@.len(), old(self).cap as nat) ==> final(self).cursor
                == old(self).cursor,
            !old(self).cursor.wf(listing@.len(), old(self).cap as nat) && listing@.len() > 0
                ==> final(self).cursor.index == listing@.len() - 1,
            listing@.len() == 0 ==> final(self).cursor == Num::top(),
    {
        let len = listing.len();
        let cap = self.cap;
        let c = self.cursor;
        self.listing = listing;
        clear_flags(&mut self.listing);
        self.mode = Mode::Browse;
        if !c.fits(len, cap) {
            if len == 0 {
                self.cursor = Num::new();
            } else if len > cap {
                self.cursor = Num { index: len - 1, skip: len - cap };
            } else {
                self.cursor = Num { index: len - 1, skip: 0 };
            }
        }
    }

    /// Enters a child directory: saves the cursor of the listing being left,
    /// then shows the child's listing from its first entry.
    pub fn descend(&mut self, listing: Vec<Entry>)
        requires
            old(self).wf(),
        ensures
            final(self).wf(),
            final(self).cap == old(self).cap,
            final(self).history.view() == old(self).history.view().push(old(self).cursor),
            final(self).mode == Mode::Browse,
            final(self).cursor == Num::top(),
            same_but_flags(listing_view(listing@), final(self).items(), |i: int| false),
    {
        let c = self.cursor;
        self.history.push(c);
        self.reset_listing(listing);
    }

    /// Returns to the parent directory: the cursor saved on the way down is
    /// restored as it was (when it still fits the parent's listing); with no
    /// saved cursor the pointer goes to the first entry.
    pub fn ascend(&mut self, listing: Vec<Entry>)
        requires
            old(self).wf(),
        ensures
            final(self).wf(),
            final(self).cap == old(self).cap,
            final(self).mode == Mode::Browse,
            same_but_flags(listing_view(listing@), final(self).items(), |i: int| false),
            old(self).history.view().len() > 0 ==> final(self).history.view() == old(
                self,
            ).history.view().drop_last(),
            old(self).history.view().len() > 0 && old(self).history.view().last().wf(
                listing@.len(),
                old(self).cap as nat,
            ) ==> final(self).cursor == old(self).history.view().last(),
            old(self).history.view().len() > 0 && !old(self).history.view().last().wf(
                listing@.len(),
                old(self).cap as nat,
            ) ==> final(self).cursor == Num::top(),
            old(self).history.view().len() == 0 ==> final(self).cursor == Num::top()
                && final(self).history.view() == old(self).history.view(),
    {
        let len = listing.len();
        let saved = self.history.pop();
        self.reset_listing(listing);
        if saved.fits(len, self.cap) {
            self.cursor = saved;
        }
    }
}

/// In visual-select mode the selected entries are exactly those between the
/// anchor and the pointer, both included, however the pointer got there.
pub proof fn lemma_selection_is_range(e: Engine)
    requires
        e.wf(),
        e.mode == Mode::VisualSelect,
    ensures
        forall|i: int|
            0 <= i < e.len() ==> ((#[trigger] e.items()[i]).selected <==> e.selection.selected_set().contains(i)),
        forall|i: int|
            e.selection.selected_set().contains(i) <==> (if e.selection.anchor <= e.cursor.index {
                e.selection.anchor <= i <= e.cursor.index
            } else {
                e.cursor.index <= i <= e.selection.anchor
            }),
{
}

/// In filter mode the listing shown is determined by the snapshot taken on
/// entry and the current keyword alone, whatever keystrokes led there: typing
/// a character and deleting it again gives back the listing of the shorter
/// keyword exactly.
pub proof fn lemma_filter_no_drift(a: Engine, b: Engine)
    requires
        a.wf(),
        b.wf(),
        a.mode == Mode::LineEdit(EditKind::Filter),
        b.mode == Mode::LineEdit(EditKind::Filter),
        listing_view(a.original@) == listing_view(b.original@),
        a.buffer.text@ == b.buffer.text@,
    ensures
        a.items() == b.items(),
{
}

} // verus!
