use dirnav::keys::{command_for_key, Action, Command};
use dirnav::nav::{NavError, NavigationState};
use dirnav::path::{is_component_name, DirPath};
use dirnav::render::{render, LineStyle};
use dirnav::snapshot::{DirectorySnapshot, EntryKind, ListedEntry};

fn path_of(parts: &[&str]) -> DirPath {
    let mut p = DirPath::root();
    for part in parts {
        p = p.join(&part.to_string());
    }
    p
}

fn dir(name: &str) -> ListedEntry {
    ListedEntry { name: Some(name.to_string()), kind: EntryKind::Directory }
}

fn file(name: &str) -> ListedEntry {
    ListedEntry { name: Some(name.to_string()), kind: EntryKind::File }
}

fn state_at(parts: &[&str], listing: Vec<ListedEntry>) -> NavigationState {
    NavigationState::new(DirectorySnapshot::from_listing(path_of(parts), &listing))
}

fn dir_names(s: &NavigationState) -> Vec<String> {
    s.snapshot().subdirectories().iter().map(|d| d.name.clone()).collect()
}

#[test]
fn two_dirs_cursor_stops_at_last() {
    let mut s = state_at(&["tmp", "x"], vec![dir("a"), dir("b"), file("f.txt")]);
    assert_eq!(dir_names(&s), vec!["a".to_string(), "b".to_string()]);
    assert_eq!(s.snapshot().files(), &vec!["f.txt".to_string()]);
    assert_eq!(s.selected_index(), 0);
    s.move_selection_down();
    assert_eq!(s.selected_index(), 1);
    s.move_selection_down();
    assert_eq!(s.selected_index(), 1);
}

#[test]
fn cursor_stays_in_range_for_any_moves() {
    let mut s = state_at(&["tmp"], vec![dir("a"), dir("b"), dir("c")]);
    let moves = [true, true, true, true, false, true, false, false, false, false, true];
    let mut expected: usize = 0;
    for down in moves {
        if down {
            s.move_selection_down();
            if expected < 2 {
                expected += 1;
            }
        } else {
            s.move_selection_up();
            if expected > 0 {
                expected -= 1;
            }
        }
        assert!(s.selected_index() <= 2);
        assert_eq!(s.selected_index(), expected);
    }
}

#[test]
fn cursor_up_at_zero_does_not_wrap() {
    let mut s = state_at(&["tmp"], vec![dir("a"), dir("b")]);
    s.move_selection_up();
    assert_eq!(s.selected_index(), 0);
}

#[test]
fn cursor_moves_without_subdirectories_are_no_ops() {
    let mut s = state_at(&["tmp"], vec![file("x")]);
    s.move_selection_down();
    assert_eq!(s.selected_index(), 0);
    s.move_selection_up();
    assert_eq!(s.selected_index(), 0);
}

#[test]
fn descend_then_ascend_returns_to_start() {
    let start = vec![dir("a"), dir("b"), file("f.txt")];
    let mut s = state_at(&["home", "user"], start.clone());
    s.move_selection_down();
    assert_eq!(s.descend(Ok(vec![dir("inner")])), Ok(()));
    assert_eq!(s.commit(), "/home/user/b");
    assert_eq!(dir_names(&s), vec!["inner".to_string()]);
    assert_eq!(s.selected_index(), 0);
    assert_eq!(s.ascend(Ok(start)), Ok(()));
    assert_eq!(s.commit(), "/home/user");
    assert_eq!(dir_names(&s), vec!["a".to_string(), "b".to_string()]);
    assert_eq!(s.selected_index(), 0);
}

#[test]
fn ascend_at_root_is_a_no_op() {
    let mut s = state_at(&[], vec![dir("etc"), dir("usr")]);
    s.move_selection_down();
    assert_eq!(s.ascend(Ok(vec![dir("other")])), Ok(()));
    assert_eq!(s.commit(), "/");
    assert_eq!(s.selected_index(), 1);
    assert_eq!(s.ascend(Err(NavError::UnreadableDirectory)), Ok(()));
    assert_eq!(dir_names(&s), vec!["etc".to_string(), "usr".to_string()]);
    assert!(s.ascend_target().is_none());
}

#[test]
fn descend_into_unreadable_leaves_state_unchanged() {
    let mut s = state_at(&["srv"], vec![dir("a"), dir("locked"), file("f")]);
    s.move_selection_down();
    assert_eq!(s.descend(Err(NavError::UnreadableDirectory)), Err(NavError::UnreadableDirectory));
    assert_eq!(s.commit(), "/srv");
    assert_eq!(s.selected_index(), 1);
    assert_eq!(dir_names(&s), vec!["a".to_string(), "locked".to_string()]);
    assert_eq!(s.snapshot().files(), &vec!["f".to_string()]);
}

#[test]
fn ascend_into_unreadable_leaves_state_unchanged() {
    let mut s = state_at(&["srv", "data"], vec![dir("a"), dir("b")]);
    s.move_selection_down();
    assert_eq!(s.ascend(Err(NavError::UnreadableDirectory)), Err(NavError::UnreadableDirectory));
    assert_eq!(s.commit(), "/srv/data");
    assert_eq!(s.selected_index(), 1);
}

#[test]
fn descend_without_subdirectories_is_a_no_op() {
    let mut s = state_at(&["srv"], vec![file("f")]);
    assert!(s.descend_target().is_none());
    assert_eq!(s.descend(Ok(vec![dir("z")])), Ok(()));
    assert_eq!(s.commit(), "/srv");
    assert!(dir_names(&s).is_empty());
}

#[test]
fn render_empty_directory_is_one_status_line() {
    let s = state_at(&["home", "user", "empty"], vec![]);
    let lines = render(&s, 24);
    assert_eq!(lines.len(), 1);
    assert_eq!(lines[0].style, LineStyle::Status);
    assert_eq!(lines[0].text, "/home/user/empty");
    assert_eq!(lines[0].row, 24);
}

#[test]
fn render_lists_dirs_then_files_then_status() {
    let mut s = state_at(&["w"], vec![file("f.txt"), dir("a"), dir("b")]);
    s.move_selection_down();
    let lines = render(&s, 10);
    assert_eq!(lines.len(), 4);
    assert_eq!((lines[0].row, lines[0].style, lines[0].text.as_str()), (1, LineStyle::Directory, "/a/"));
    assert_eq!((lines[1].row, lines[1].style, lines[1].text.as_str()), (2, LineStyle::Selected, "/b/"));
    assert_eq!((lines[2].row, lines[2].style, lines[2].text.as_str()), (3, LineStyle::File, "f.txt"));
    assert_eq!((lines[3].row, lines[3].style, lines[3].text.as_str()), (10, LineStyle::Status, "/w"));
}

#[test]
fn render_status_row_on_zero_height() {
    let s = state_at(&[], vec![]);
    let lines = render(&s, 0);
    assert_eq!(lines[0].row, 1);
    assert_eq!(lines[0].text, "/");
}

#[test]
fn commit_returns_exact_path() {
    let s = state_at(&["home", "user", "docs"], vec![dir("x")]);
    assert_eq!(s.commit(), "/home/user/docs");
}

#[test]
fn listing_skips_invalid_names_keeps_other_kinds_as_files() {
    let listing = vec![
        ListedEntry { name: None, kind: EntryKind::Directory },
        dir(""),
        dir("a/b"),
        dir("."),
        dir(".."),
        ListedEntry { name: Some("sock".to_string()), kind: EntryKind::Other },
        dir(".hidden"),
        file("..x"),
        ListedEntry { name: None, kind: EntryKind::File },
        dir("z"),
    ];
    let snap = DirectorySnapshot::from_listing(path_of(&["r"]), &listing);
    let names: Vec<String> = snap.subdirectories().iter().map(|d| d.name.clone()).collect();
    assert_eq!(names, vec![".hidden".to_string(), "z".to_string()]);
    assert_eq!(snap.files(), &vec!["sock".to_string(), "..x".to_string()]);
    assert_eq!(snap.subdirectories()[1].path.to_text(), "/r/z");
}

#[test]
fn component_names() {
    assert!(is_component_name(&"a".to_string()));
    assert!(is_component_name(&"...".to_string()));
    assert!(is_component_name(&".a".to_string()));
    assert!(!is_component_name(&"".to_string()));
    assert!(!is_component_name(&".".to_string()));
    assert!(!is_component_name(&"..".to_string()));
    assert!(!is_component_name(&"x/".to_string()));
}

#[test]
fn path_operations() {
    let root = DirPath::root();
    assert!(root.is_root());
    assert_eq!(root.to_text(), "/");
    assert_eq!(root.file_name(), None);
    assert_eq!(root.parent().to_text(), "/");
    let p = path_of(&["usr", "lib"]);
    assert_eq!(p.depth(), 2);
    assert_eq!(p.to_text(), "/usr/lib");
    assert_eq!(p.file_name(), Some("lib".to_string()));
    assert_eq!(p.parent().to_text(), "/usr");
    assert_eq!(p.duplicate().to_text(), "/usr/lib");
}

#[test]
fn key_bindings() {
    assert_eq!(command_for_key('q'), Some(Command::Quit));
    assert_eq!(command_for_key('j'), Some(Command::Down));
    assert_eq!(command_for_key('k'), Some(Command::Up));
    assert_eq!(command_for_key('h'), Some(Command::Ascend));
    assert_eq!(command_for_key('l'), Some(Command::Descend));
    assert_eq!(command_for_key('x'), None);
}

#[test]
fn apply_commands() {
    let mut s = state_at(&["a"], vec![dir("b"), dir("c")]);
    assert!(matches!(s.apply(Command::Down), Action::Stay));
    assert_eq!(s.selected_index(), 1);
    match s.apply(Command::Descend) {
        Action::Descend(p) => assert_eq!(p.to_text(), "/a/c"),
        other => panic!("unexpected {:?}", other),
    }
    match s.apply(Command::Ascend) {
        Action::Ascend(p) => assert_eq!(p.to_text(), "/"),
        other => panic!("unexpected {:?}", other),
    }
    assert!(matches!(s.apply(Command::Up), Action::Stay));
    assert_eq!(s.selected_index(), 0);
    match s.apply(Command::Quit) {
        Action::Exit(p) => assert_eq!(p, "/a"),
        other => panic!("unexpected {:?}", other),
    }
    let mut r = state_at(&[], vec![]);
    assert!(matches!(r.apply(Command::Ascend), Action::Stay));
    assert!(matches!(r.apply(Command::Descend), Action::Stay));
}

#[test]
fn frame_of_empty_directory_without_colors() {
    let s = state_at(&["home", "u"], vec![]);
    let text = dirnav::frame::frame_text(&render(&s, 24), false);
    assert_eq!(text, "\x1b[2J\x1b[1;1H\x1b[24;1H/home/u");
}

#[test]
fn frame_with_colors() {
    let mut s = state_at(&["w"], vec![dir("a"), dir("b"), file("f")]);
    s.move_selection_down();
    let text = dirnav::frame::frame_text(&render(&s, 120), true);
    let expected = [
        "\x1b[2J\x1b[1;1H",
        "\x1b[1;1H\x1b[38;5;4m/a/",
        "\x1b[2;1H\x1b[38;5;4m\x1b[48;2;255;153;0m/b/\x1b[49m",
        "\x1b[3;1H\x1b[38;5;2mf",
        "\x1b[120;1H\x1b[38;5;1m\x1b[48;5;2m/w\x1b[39m\x1b[49m",
        "\x1b[39m\x1b[49m",
    ]
    .concat();
    assert_eq!(text, expected);
}

#[test]
fn frame_clamps_rows_past_the_terminal_range() {
    let lines = vec![dirnav::render::DrawLine {
        row: 70000,
        style: LineStyle::File,
        text: "x".to_string(),
    }];
    let text = dirnav::frame::frame_text(&lines, false);
    assert_eq!(text, "\x1b[2J\x1b[1;1H\x1b[65535;1Hx");
}

#[test]
fn listing_of_one_socket_has_it_among_files() {
    let listing = vec![ListedEntry { name: Some("s".to_string()), kind: EntryKind::Other }];
    let snap = DirectorySnapshot::from_listing(path_of(&["run"]), &listing);
    assert!(snap.subdirectories().is_empty());
    assert_eq!(snap.files(), &vec!["s".to_string()]);
}
