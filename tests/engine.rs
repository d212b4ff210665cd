use felix::edit::{EditBuffer, EditError};
use felix::engine::{command_action, Action, EditKind, Engine, Key, Mode};
use felix::history::HistoryStack;
use felix::listing::{filter_listing, Entry, FileType};
use felix::selection::SelectionRange;
use felix::state::Num;

fn entry(name: &str, file_type: FileType) -> Entry {
    Entry {
        file_name: name.to_string(),
        file_path: format!("/tmp/{}", name),
        file_type,
        selected: false,
        file_size: 0,
        modified: None,
    }
}

fn files(names: &[&str]) -> Vec<Entry> {
    names.iter().map(|n| entry(n, FileType::File)).collect()
}

fn names(v: &[Entry]) -> Vec<String> {
    v.iter().map(|e| e.file_name.clone()).collect()
}

fn selected(v: &[Entry]) -> Vec<usize> {
    (0..v.len()).filter(|i| v[*i].selected).collect()
}

#[test]
fn scroll_scenario_five_entries_three_rows() {
    let mut c = Num::new();
    let (len, cap) = (5, 3);
    c.move_down(len, cap);
    c.move_down(len, cap);
    assert_eq!((c.index, c.skip), (2, 0));
    c.move_down(len, cap);
    assert_eq!((c.index, c.skip), (3, 1));
    c.move_down(len, cap);
    assert_eq!((c.index, c.skip), (4, 2));
    c.move_down(len, cap);
    assert_eq!((c.index, c.skip), (4, 2));
}

#[test]
fn pointer_stays_in_window() {
    let (len, cap) = (7, 3);
    let mut c = Num::new();
    let moves = ['j', 'j', 'j', 'j', 'k', 'k', 'k', 'k', 'G', 'k', 'g', 'j', 'G'];
    for m in moves {
        match m {
            'j' => c.move_down(len, cap),
            'k' => c.move_up(len, cap),
            'g' => c.move_top(len, cap),
            _ => c.move_bottom(len, cap),
        }
        assert!(c.skip <= c.index && c.index - c.skip < cap && c.index < len);
    }
}

#[test]
fn down_then_up_restores() {
    let mut c = Num { index: 1, skip: 0 };
    c.move_down(5, 3);
    c.move_up(5, 3);
    assert_eq!(c, Num { index: 1, skip: 0 });
    let mut d = Num { index: 3, skip: 2 };
    d.move_up(6, 3);
    d.move_down(6, 3);
    assert_eq!(d, Num { index: 3, skip: 2 });
}

#[test]
fn bottom_then_top() {
    let mut c = Num::new();
    c.move_bottom(10, 4);
    assert_eq!(c, Num { index: 9, skip: 6 });
    c.move_top(10, 4);
    assert_eq!(c, Num { index: 0, skip: 0 });
}

#[test]
fn moves_on_empty_listing_do_nothing() {
    let mut c = Num::new();
    c.move_down(0, 3);
    c.move_bottom(0, 3);
    c.move_up(0, 3);
    assert_eq!(c, Num::new());
}

#[test]
fn edit_buffer_operations() {
    let mut b = EditBuffer::new();
    assert_eq!(b.insert_at(1, 'x'), Err(EditError::OutOfBounds));
    b.insert_char('a');
    b.insert_char('c');
    b.move_left();
    b.insert_char('b');
    assert_eq!(b.text, vec!['a', 'b', 'c']);
    assert_eq!(b.cursor, 2);
    b.backspace();
    assert_eq!(b.text, vec!['a', 'c']);
    assert_eq!(b.cursor, 1);
    b.move_left();
    b.move_left();
    assert_eq!(b.cursor, 0);
    b.backspace();
    assert_eq!(b.text, vec!['a', 'c']);
    b.move_right();
    b.move_right();
    b.move_right();
    assert_eq!(b.cursor, 2);
    assert_eq!(b.delete_before(3), Err(EditError::OutOfBounds));
}

#[test]
fn selection_range_follows_cursor() {
    let mut s = SelectionRange::new(3);
    s.update(1);
    assert_eq!(s.indices(), vec![1, 2, 3]);
    s.update(5);
    assert_eq!(s.indices(), vec![3, 4, 5]);
    assert!(!s.is_selected(1) && !s.is_selected(2));
}

#[test]
fn visual_select_marks_range_and_esc_clears() {
    let mut e = Engine::new(files(&["a", "b", "c", "d", "e", "f"]), 10, false);
    for _ in 0..3 {
        e.handle_key(Key::Char('j'));
    }
    e.handle_key(Key::Char('V'));
    e.handle_key(Key::Char('k'));
    e.handle_key(Key::Char('k'));
    assert_eq!(selected(&e.listing), vec![1, 2, 3]);
    for _ in 0..4 {
        e.handle_key(Key::Char('j'));
    }
    assert_eq!(selected(&e.listing), vec![3, 4, 5]);
    e.handle_key(Key::Char('g'));
    assert_eq!(selected(&e.listing), vec![0, 1, 2, 3]);
    e.handle_key(Key::Esc);
    assert_eq!(e.mode, Mode::Browse);
    assert!(selected(&e.listing).is_empty());
}

#[test]
fn history_round_trip() {
    let mut e = Engine::new(files(&["a", "b", "c", "d"]), 10, false);
    e.handle_key(Key::Down);
    e.handle_key(Key::Down);
    e.descend(files(&["x", "y"]));
    assert_eq!(e.cursor, Num { index: 0, skip: 0 });
    e.descend(files(&["z"]));
    e.ascend(files(&["x", "y"]));
    assert_eq!(e.cursor, Num { index: 0, skip: 0 });
    e.ascend(files(&["a", "b", "c", "d"]));
    assert_eq!(e.cursor, Num { index: 2, skip: 0 });
    e.handle_key(Key::Down);
    e.ascend(files(&["a", "b", "c", "d"]));
    assert_eq!(e.cursor, Num::new());
}

#[test]
fn history_stack_pop_on_empty() {
    let mut h = HistoryStack::new();
    assert_eq!(h.pop(), Num::new());
    h.push(Num { index: 2, skip: 1 });
    assert_eq!(h.pop(), Num { index: 2, skip: 1 });
}

#[test]
fn filter_backspace_has_no_drift() {
    let listing = files(&["apple", "banana", "grape", "apricot", "cherry"]);
    let mut e = Engine::new(files(&["apple", "banana", "grape", "apricot", "cherry"]), 10, false);
    e.handle_key(Key::Char('/'));
    e.handle_key(Key::Char('a'));
    let after_a = names(&e.listing);
    e.handle_key(Key::Char('p'));
    assert_eq!(names(&e.listing), vec!["apple", "grape", "apricot"]);
    e.handle_key(Key::Backspace);
    assert_eq!(names(&e.listing), after_a);
    assert_eq!(names(&e.listing), names(&filter_listing(&listing, &vec!['a'])));
    e.handle_key(Key::Esc);
    assert_eq!(names(&e.listing), names(&listing));
    assert_eq!(e.mode, Mode::Browse);
}

#[test]
fn filter_commit_keeps_filtered_listing() {
    let mut e = Engine::new(files(&["Ab", "ab", "cd"]), 10, false);
    e.handle_key(Key::Char('/'));
    e.handle_key(Key::Char('a'));
    e.handle_key(Key::Enter);
    assert_eq!(names(&e.listing), vec!["ab"]);
    assert_eq!(e.cursor, Num::new());
}

#[test]
fn rename_and_new_directory_actions() {
    let mut e = Engine::new(files(&["old.txt"]), 10, false);
    e.handle_key(Key::Char('c'));
    assert_eq!(e.mode, Mode::LineEdit(EditKind::Rename));
    e.handle_key(Key::Backspace);
    e.handle_key(Key::Char('d'));
    match e.handle_key(Key::Enter) {
        Action::Rename { index, name } => {
            assert_eq!(index, 0);
            assert_eq!(name.iter().collect::<String>(), "old.txd");
        }
        other => panic!("unexpected {:?}", other),
    }
    e.handle_key(Key::Char('m'));
    e.handle_key(Key::Char('n'));
    e.handle_key(Key::Char('日'));
    match e.handle_key(Key::Enter) {
        Action::MakeDir(name) => assert_eq!(name, vec!['n']),
        other => panic!("unexpected {:?}", other),
    }
    e.handle_key(Key::Char('m'));
    assert!(matches!(e.handle_key(Key::Esc), Action::Idle));
    assert_eq!(e.mode, Mode::Browse);
}

#[test]
fn command_line_outcomes() {
    assert!(matches!(command_action(&vec![]), Action::Idle));
    assert!(matches!(command_action(&vec![' ']), Action::Idle));
    assert!(matches!(command_action(&vec!['q']), Action::Quit));
    match command_action(&"cd  /tmp ".chars().collect()) {
        Action::ChangeDir(p) => assert_eq!(p.iter().collect::<String>(), "/tmp"),
        other => panic!("unexpected {:?}", other),
    }
    assert!(matches!(command_action(&vec!['c', 'd']), Action::Idle));
    match command_action(&"ls -l  a".chars().collect()) {
        Action::Run { program, args } => {
            assert_eq!(program, vec!['l', 's']);
            assert_eq!(args, vec![vec!['-', 'l'], vec!['a']]);
        }
        other => panic!("unexpected {:?}", other),
    }
}

#[test]
fn delete_asks_first_when_warned() {
    let mut e = Engine::new(files(&["a", "b"]), 10, true);
    e.handle_key(Key::Down);
    assert!(matches!(e.handle_key(Key::Char('D')), Action::Idle));
    assert!(matches!(e.handle_key(Key::Char('n')), Action::Idle));
    assert_eq!(e.mode, Mode::Browse);
    e.handle_key(Key::Char('D'));
    assert!(matches!(e.handle_key(Key::Char('Y')), Action::Delete(1)));
    e.refresh(files(&["a"]));
    assert_eq!(e.cursor, Num { index: 0, skip: 0 });
    let mut quick = Engine::new(files(&["a"]), 10, false);
    assert!(matches!(quick.handle_key(Key::Char('D')), Action::Delete(0)));
}

#[test]
fn open_descend_quit_and_help() {
    let mut e = Engine::new(vec![entry("dir", FileType::Directory), entry("f", FileType::File)], 10, false);
    assert!(matches!(e.handle_key(Key::Enter), Action::Descend(0)));
    e.handle_key(Key::Down);
    assert!(matches!(e.handle_key(Key::Char('l')), Action::Open(1)));
    assert!(matches!(e.handle_key(Key::Char('h')), Action::Ascend));
    e.handle_key(Key::Char('H'));
    assert_eq!(e.mode, Mode::HelpView);
    e.handle_key(Key::Char('x'));
    assert_eq!(e.mode, Mode::Browse);
    e.handle_key(Key::Char('Z'));
    assert!(matches!(e.handle_key(Key::Char('Z')), Action::Quit));
}

#[test]
fn render_shows_window() {
    let mut e = Engine::new(files(&["a", "b", "c", "d", "e"]), 3, false);
    e.handle_key(Key::Char('G'));
    let r = e.render();
    assert_eq!((r.first, r.count, r.pointer_row), (2, 3, Some(2)));
    let empty = Engine::new(vec![], 3, false);
    let r = empty.render();
    assert_eq!((r.count, r.pointer_row), (0, None));
    e.handle_key(Key::Char(':'));
    e.handle_key(Key::Char('q'));
    let r = e.render();
    assert_eq!(r.prompt, Some((vec!['q'], 1)));
}

#[test]
fn filter_keystrokes_reset_cursor_and_keep_snapshot() {
    let all = ["a1", "a2", "b1", "a3", "b2"];
    let mut e = Engine::new(files(&all), 2, false);
    e.handle_key(Key::Char('G'));
    e.handle_key(Key::Char('/'));
    e.handle_key(Key::Char('a'));
    assert_eq!(e.cursor, Num::new());
    e.handle_key(Key::Left);
    e.handle_key(Key::Right);
    e.handle_key(Key::Backspace);
    assert_eq!(e.cursor, Num::new());
    assert_eq!(names(&e.original), all.to_vec());
    assert_eq!(names(&e.listing), all.to_vec());
    e.handle_key(Key::Char('b'));
    e.handle_key(Key::Esc);
    assert_eq!(names(&e.listing), all.to_vec());
    assert_eq!(e.cursor, Num::new());
}

#[test]
fn unbound_keys_do_nothing() {
    let mut e = Engine::new(files(&["a", "b"]), 10, false);
    e.handle_key(Key::Down);
    assert!(matches!(e.handle_key(Key::Char('x')), Action::Idle));
    assert!(matches!(e.handle_key(Key::Other), Action::Idle));
    assert_eq!(e.mode, Mode::Browse);
    assert_eq!(e.cursor, Num { index: 1, skip: 0 });
    e.handle_key(Key::Char('c'));
    e.handle_key(Key::Up);
    e.handle_key(Key::Char('x'));
    assert_eq!(e.cursor, Num { index: 1, skip: 0 });
    assert_eq!(names(&e.listing), vec!["a", "b"]);
}

#[test]
fn refresh_moves_past_end_cursor_to_last_entry() {
    let mut e = Engine::new(files(&["a", "b", "c"]), 10, false);
    e.handle_key(Key::Char('G'));
    e.refresh(files(&["a"]));
    assert_eq!(e.cursor, Num { index: 0, skip: 0 });
    e.refresh(vec![]);
    assert_eq!(e.cursor, Num::new());
}
