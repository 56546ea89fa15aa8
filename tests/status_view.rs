use rgt::{
    branch_name, build, default_file_index, find_entry, modified_file_indexes,
    modified_files_command, push_padded, stage_file, staged_file_indexes, staged_files_command,
    status_message_for, unstage_file, untracked_file_indexes, untracked_files_command, Action,
    Cursor, FileIndex, ProcessCall, RGTStatus, Row, Size,
};

fn entry(status: &str, name: &str, staged: bool, untracked: bool) -> FileIndex {
    FileIndex { status: status.to_string(), name: name.to_string(), staged, untracked }
}

fn call(program: &str, args: &[&str]) -> ProcessCall {
    ProcessCall {
        program: program.to_string(),
        args: args.iter().map(|a| a.to_string()).collect(),
    }
}

fn view(
    staged: Vec<FileIndex>,
    modified: Vec<FileIndex>,
    untracked: Vec<FileIndex>,
    editor: Option<&str>,
    pager: Option<&str>,
) -> RGTStatus {
    let mut v = RGTStatus::new(
        "./".to_string(),
        Size { width: 40, height: 12 },
        editor.map(|e| e.to_string()),
        pager.map(|p| p.to_string()),
    );
    v.open("main".to_string(), staged, modified, untracked);
    v
}

fn scenario() -> RGTStatus {
    view(
        vec![entry("M", "a.txt", true, false)],
        vec![],
        vec![entry("?", "b.txt", false, true)],
        Some("vim"),
        Some("less"),
    )
}

#[test]
fn staged_and_untracked_scenario() {
    let mut v = scenario();
    assert_eq!(v.file_list.len(), 7);
    v.cursor_down();
    v.cursor_down();
    assert_eq!(v.cursor.row, 2);
    assert_eq!(v.status_message, "Press u to unstage 'a.txt' for commit");
}

#[test]
fn all_empty_scenario() {
    let mut v = view(vec![], vec![], vec![], None, None);
    assert_eq!(v.file_list.len(), 7);
    let frame = v.draw();
    assert_eq!(frame.matches("  (no files)\r\n").count(), 3);
    for row in 0..7 {
        assert_eq!(v.cursor.row, row);
        assert_eq!(v.status_message, "Nothing to update");
        v.cursor_down();
    }
    assert_eq!(v.cursor.row, 6);
    assert_eq!(v.status_message, "Nothing to update");
}

#[test]
fn status_bar_wider_than_terminal_is_unpadded() {
    let mut out = String::new();
    push_padded(&mut out, "Nothing to update", 5);
    assert_eq!(out, "Nothing to update");
    let mut out = String::new();
    push_padded(&mut out, "abc", 3);
    assert_eq!(out, "abc");
    let mut out = String::new();
    push_padded(&mut out, "abc", 6);
    assert_eq!(out, "abc   ");
    let mut v = view(vec![], vec![], vec![], None, None);
    v.terminal_size = Size { width: 4, height: 0 };
    let frame = v.draw();
    assert!(frame.contains("\x1b[48;5;4mNothing to update\x1b[49m\r\n"));
}

#[test]
fn row_count_closed_form() {
    let e = |n: &str| entry("M", n, false, false);
    for (s, m, u) in [(0usize, 0usize, 0usize), (1, 0, 0), (0, 3, 0), (2, 2, 5), (0, 0, 4)] {
        let staged: Vec<FileIndex> = (0..s).map(|i| e(&format!("s{}", i))).collect();
        let modified: Vec<FileIndex> = (0..m).map(|i| e(&format!("m{}", i))).collect();
        let untracked: Vec<FileIndex> = (0..u).map(|i| e(&format!("u{}", i))).collect();
        let rows = build(&staged, &modified, &untracked);
        assert_eq!(rows.len(), 4 + s.max(1) + m.max(1) + u.max(1));
        assert_eq!(rows, build(&staged, &modified, &untracked));
    }
}

#[test]
fn layout_order() {
    let rows = build(
        &vec![entry("M", "a.txt", true, false)],
        &vec![],
        &vec![entry("?", "b.txt", false, true)],
    );
    assert_eq!(
        rows,
        vec![
            Row::Spacer,
            Row::Spacer,
            Row::File(entry("M", "a.txt", true, false)),
            Row::Spacer,
            Row::Spacer,
            Row::Spacer,
            Row::File(entry("?", "b.txt", false, true)),
        ]
    );
}

#[test]
fn cursor_stops_at_both_ends() {
    let mut v = scenario();
    v.cursor_up();
    assert_eq!(v.cursor.row, 0);
    for _ in 0..20 {
        v.cursor_down();
    }
    assert_eq!(v.cursor.row, 6);
    assert_eq!(v.status_message, "Press u to stage 'b.txt' for addition");
    v.cursor_down();
    assert_eq!(v.cursor.row, 6);
    let moves = [true, false, false, true, true, true, false, false, false, false, false, false];
    for down in moves {
        if down {
            v.cursor_down();
        } else {
            v.cursor_up();
        }
        assert!(v.cursor.row < v.file_list.len());
    }
    assert_eq!(v.cursor.row, 0);
}

#[test]
fn status_bar_for_each_kind_of_row() {
    assert_eq!(status_message_for(None), "Nothing to update");
    assert_eq!(
        status_message_for(Some(&entry("M", "a.txt", true, false))),
        "Press u to unstage 'a.txt' for commit"
    );
    assert_eq!(
        status_message_for(Some(&entry("M", "dir/c d.rs", false, false))),
        "Press u to stage 'dir/c d.rs' for commit"
    );
    assert_eq!(
        status_message_for(Some(&entry("?", "b.txt", false, true))),
        "Press u to stage 'b.txt' for addition"
    );
    assert_eq!(status_message_for(Some(&default_file_index())), "Nothing to update");
    assert_eq!(status_message_for(Some(&entry("M", "", true, false))), "Nothing to update");
}

#[test]
fn toggle_issues_the_right_command() {
    let mut v = view(
        vec![entry("M", "a.txt", true, false)],
        vec![entry("M", "c.txt", false, false)],
        vec![entry("?", "b.txt", false, true)],
        None,
        None,
    );
    assert_eq!(v.stage_or_unstage_file(), None);
    assert_eq!(v.handle_key('u'), Action::Redraw);
    v.cursor.row = 2;
    assert_eq!(v.stage_or_unstage_file(), Some(call("git", &["reset", "HEAD", "a.txt"])));
    v.cursor.row = 4;
    assert_eq!(v.stage_or_unstage_file(), Some(call("git", &["add", "c.txt"])));
    assert_eq!(
        v.handle_key('u'),
        Action::Run { call: call("git", &["add", "c.txt"]), reopen: true }
    );
    v.cursor.row = 6;
    assert_eq!(v.stage_or_unstage_file(), Some(call("git", &["add", "b.txt"])));
    v.cursor.row = 3;
    assert_eq!(v.stage_or_unstage_file(), None);
}

#[test]
fn find_entry_gives_back_what_was_built() {
    let staged = vec![entry("M", "a.txt", true, false), entry("A", "n.rs", true, false)];
    let modified = vec![entry("D", "gone.md", false, false)];
    let untracked = vec![entry("?", "x", false, true), entry("?", "y/z", false, true)];
    let rows = build(&staged, &modified, &untracked);
    assert_eq!(find_entry(&rows, 2), Some(&staged[0]));
    assert_eq!(find_entry(&rows, 3), Some(&staged[1]));
    assert_eq!(find_entry(&rows, 5), Some(&modified[0]));
    assert_eq!(find_entry(&rows, 7), Some(&untracked[0]));
    assert_eq!(find_entry(&rows, 8), Some(&untracked[1]));
    for row in [0usize, 1, 4, 6, 9, 100] {
        assert_eq!(find_entry(&rows, row), None);
    }
}

#[test]
fn parses_name_status_output() {
    let r = staged_file_indexes("M\ta.txt\nR100\told.rs\tnew.rs\nA\tdir/b c\n");
    assert_eq!(
        r,
        vec![
            entry("M", "a.txt", true, false),
            entry("R100", "new.rs", true, false),
            entry("A", "dir/b c", true, false),
        ]
    );
    let r = modified_file_indexes("D\tgone\n");
    assert_eq!(r, vec![entry("D", "gone", false, false)]);
    assert_eq!(modified_file_indexes(""), vec![]);
    assert_eq!(staged_file_indexes("M\tlast"), vec![]);
}

#[test]
fn parses_untracked_output() {
    let r = untracked_file_indexes("b.txt\nsrc/new.rs\n");
    assert_eq!(r, vec![entry("?", "b.txt", false, true), entry("?", "src/new.rs", false, true)]);
    assert_eq!(untracked_file_indexes(""), vec![]);
    assert_eq!(untracked_file_indexes("\n"), vec![entry("?", "", false, true)]);
}

#[test]
fn branch_name_strips_one_heads_prefix() {
    assert_eq!(branch_name("refs/heads/main"), "main");
    assert_eq!(branch_name("refs/heads/feature/x"), "feature/x");
    assert_eq!(branch_name("refs/heads/refs/heads/x"), "refs/heads/x");
    assert_eq!(branch_name("HEAD"), "HEAD");
    assert_eq!(branch_name("refs/tags/v1"), "refs/tags/v1");
    assert_eq!(branch_name("refs/heads/"), "");
    assert_eq!(branch_name(""), "");
}

#[test]
fn default_entry_is_empty() {
    assert_eq!(default_file_index(), entry("", "", false, true));
}

#[test]
fn git_commands() {
    assert_eq!(stage_file("a b.txt"), call("git", &["add", "a b.txt"]));
    assert_eq!(unstage_file("a.txt"), call("git", &["reset", "HEAD", "a.txt"]));
    assert_eq!(staged_files_command(), call("git", &["diff", "--cached", "--name-status"]));
    assert_eq!(modified_files_command(), call("git", &["diff", "--name-status"]));
    assert_eq!(
        untracked_files_command(),
        call("git", &["ls-files", "--others", "--exclude-standard"])
    );
}

#[test]
fn frame_layout_and_escapes() {
    let mut v = scenario();
    v.terminal_size = Size { width: 40, height: 12 };
    v.cursor_down();
    v.cursor_down();
    let frame = v.draw();
    let expected = [
        "\x1b[2J\x1b[1;1H",
        "\x1b[38;5;2mOn branch main\r\n\x1b[39m",
        "\x1b[38;5;4mChanges to be committed:\r\n\x1b[39m",
        "\x1b[38;5;5mM\x1b[39m a.txt\r\n",
        "\x1b[38;5;4mChanges not staged for commit:\r\n\x1b[39m",
        "  (no files)\r\n",
        "\x1b[38;5;4mUntracked files:\r\n\x1b[39m",
        "\x1b[38;5;5m?\x1b[39m b.txt\r\n",
        "\r\n\r\n\r\n",
        "\x1b[48;5;4mPress u to unstage 'a.txt' for commit   \x1b[49m\r\n",
        "\x1b[3;1H",
    ]
    .concat();
    assert_eq!(frame, expected);
}

#[test]
fn frame_with_tiny_terminal() {
    let mut v = scenario();
    v.terminal_size = Size { width: 0, height: 1 };
    let frame = v.draw();
    assert!(frame.ends_with("\x1b[48;5;4mNothing to update\x1b[49m\r\n\x1b[1;1H"));
    assert!(!frame.contains("\r\n\r\n"));
}

#[test]
fn reopen_keeps_and_clamps_the_row() {
    let mut v = view(
        vec![],
        vec![entry("M", "a", false, false), entry("M", "b", false, false), entry("M", "c", false, false)],
        vec![],
        None,
        None,
    );
    assert_eq!(v.file_list.len(), 9);
    v.cursor.row = 8;
    v.open("main".to_string(), vec![entry("M", "a", true, false)], vec![], vec![]);
    assert_eq!(v.file_list.len(), 7);
    assert_eq!(v.cursor.row, 6);
    assert_eq!(v.status_message, "Nothing to update");
    v.cursor.row = 2;
    v.open("dev".to_string(), vec![entry("M", "a", true, false)], vec![], vec![]);
    assert_eq!(v.cursor, Cursor { row: 2, column: 0 });
    assert_eq!(v.branch_name, "dev");
    assert_eq!(v.status_message, "Press u to unstage 'a' for commit");
}

#[test]
fn keys_dispatch() {
    let mut v = scenario();
    assert_eq!(v.handle_key('q'), Action::Quit);
    assert_eq!(v.handle_key('x'), Action::Redraw);
    assert_eq!(v.handle_key('j'), Action::Redraw);
    assert_eq!(v.cursor.row, 1);
    assert_eq!(v.handle_key('k'), Action::Redraw);
    assert_eq!(v.cursor.row, 0);
    assert_eq!(v.handle_key('e'), Action::Redraw);
    assert_eq!(v.handle_key('\n'), Action::Redraw);
    assert_eq!(v.handle_key('c'), Action::Run { call: call("git", &["commit"]), reopen: true });
    v.cursor.row = 2;
    assert_eq!(
        v.handle_key('\n'),
        Action::Run { call: call("git", &["diff", "--cached", "a.txt"]), reopen: false }
    );
    assert_eq!(v.handle_key('e'), Action::Run { call: call("vim", &["a.txt"]), reopen: false });
    v.cursor.row = 6;
    assert_eq!(v.handle_key('\n'), Action::Run { call: call("less", &["b.txt"]), reopen: false });
}

#[test]
fn views_and_edits_need_configuration() {
    let mut v = view(
        vec![],
        vec![entry("M", "m.rs", false, false)],
        vec![entry("?", "n.rs", false, true)],
        Some(""),
        None,
    );
    v.cursor.row = 4;
    assert_eq!(v.diff_or_pager_file(), Some(call("git", &["diff", "m.rs"])));
    assert_eq!(v.edit_file(), None);
    v.cursor.row = 6;
    assert_eq!(v.diff_or_pager_file(), None);
    v.pager = Some(String::new());
    assert_eq!(v.diff_or_pager_file(), None);
    v.pager = Some("more".to_string());
    assert_eq!(v.diff_or_pager_file(), Some(call("more", &["n.rs"])));
    v.editor = Some("nano".to_string());
    assert_eq!(v.edit_file(), Some(call("nano", &["n.rs"])));
}
