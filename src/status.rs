use vstd::prelude::*;
use crate::file_status::{git_call, stage_file, unstage_file, FileIndex, ProcessCall, Section};
use crate::render::{frame_text, render_frame};
use crate::rows::{build, entry_at, find_entry, layout, row_count, Row};
use crate::status_bar::{status_message_for, status_text};

verus! {

/// Terminal dimensions in character cells.
#[derive(Debug, Clone, Copy, PartialEq, Eq)]
pub struct Size {
    pub width: usize,
    pub height: usize,
}

/// The selected row, and the column that the terminal cursor is put on.
#[derive(Debug, Clone, Copy, PartialEq, Eq)]
pub struct Cursor {
    pub row: usize,
    pub column: usize,
}

/// What the event loop is to do after a key has been handled.
#[derive(Debug, Clone, PartialEq, Eq)]
pub enum Action {
    /// Leave the loop.
    Quit,
    /// Draw the view again.
    Redraw,
    /// Run `call`, wait for it, then rebuild the view from a fresh status
    /// query where `reopen` is set, and draw it.
    Run { call: ProcessCall, reopen: bool },
}

/// The program and arguments that an action runs, if any.
pub open spec fn call_of(a: Action) -> Option<ProcessCall> {
    match a {
        Action::Run { call, reopen } => Some(call),
        _ => None,
    }
}

/// The entry under a cursor that holds a path, or nothing.
pub open spec fn named(e: Option<FileIndex>) -> Option<FileIndex> {
    match e {
        Some(f) => if f.name@.len() > 0 {
            Some(f)
        } else {
            None
        },
        None => None,
    }
}

/// A configured program: set, and not empty.
pub open spec fn configured(p: Option<String>) -> bool {
    p is Some && p->Some_0@.len() > 0
}

/// Toggling an entry: unstage a staged one, stage any other; nothing at all
/// where the cursor holds no entry.
pub open spec fn toggle_call(e: Option<FileIndex>, c: Option<ProcessCall>) -> bool {
    match named(e) {
        None => c is None,
        Some(f) => c is Some && if f.section() == Section::Staged {
            c->Some_0.is_call("git"@, seq!["reset"@, "HEAD"@, f.name@])
        } else {
            c->Some_0.is_call("git"@, seq!["add"@, f.name@])
        },
    }
}

/// Viewing an entry: an untracked file in the pager, where one is
/// configured; any other entry as a diff, against the index where staged.
pub open spec fn view_call(e: Option<FileIndex>, pager: Option<String>, c: Option<ProcessCall>) -> bool {
    match named(e) {
        None => c is None,
        Some(f) => if f.section() == Section::Untracked {
            if configured(pager) {
                c is Some && c->Some_0.is_call(pager->Some_0@, seq![f.name@])
            } else {
                c is None
            }
        } else if f.section() == Section::Staged {
            c is Some && c->Some_0.is_call("git"@, seq!["diff"@, "--cached"@, f.name@])
        } else {
            c is Some && c->Some_0.is_call("git"@, seq!["diff"@, f.name@])
        },
    }
}

/// Editing an entry: its path in the configured editor.
pub open spec fn edit_call(e: Option<FileIndex>, editor: Option<String>, c: Option<ProcessCall>) -> bool {
    match named(e) {
        Some(f) => if configured(editor) {
            c is Some && c->Some_0.is_call(editor->Some_0@, seq![f.name@])
        } else {
            c is None
        },
        None => c is None,
    }
}

/// The row above, or the same row at the top.
pub open spec fn up_row(row: nat) -> nat {
    if row > 0 {
        (row - 1) as nat
    } else {
        row
    }
}

/// The row below, or the same row at the bottom.
pub open spec fn down_row(row: nat, count: nat) -> nat {
    if row + 1 < count {
        row + 1
    } else {
        row
    }
}

/// The row that a cursor on `row` is kept on when the view is rebuilt with
/// `count` rows: the same number, or the last row where that is past it.
pub open spec fn kept_row(row: nat, count: nat) -> nat {
    if row < count {
        row
    } else {
        (count - 1) as nat
    }
}

/// The state of the status screen.
pub struct RGTStatus {
    pub path: String,
    pub cursor: Cursor,
    pub terminal_size: Size,
    pub branch_name: String,
    pub staged_file_indexes: Vec<FileIndex>,
    pub modified_file_indexes: Vec<FileIndex>,
    pub untracked_file_indexes: Vec<FileIndex>,
    pub file_list: Vec<Row>,
    pub status_message: String,
    pub editor: Option<String>,
    pub pager: Option<String>,
}

impl RGTStatus {
    /// The rows are the layout of the three lists, and the cursor is on one.
    pub open spec fn wf(&self) -> bool {
        &&& self.file_list@ == layout(
            self.staged_file_indexes@,
            self.modified_file_indexes@,
            self.untracked_file_indexes@,
        )
        &&& self.cursor.row < self.file_list@.len()
    }

    /// The entry under the cursor.
    pub open spec fn current(&self) -> Option<FileIndex> {
        entry_at(self.file_list@, self.cursor.row as int)
    }

    /// The status bar says what `u` does on the current row.
    pub open spec fn hint_is_current(&self) -> bool {
        self.status_message@ == status_text(self.current())
    }

    /// Everything but the cursor row and the status bar is as in `other`.
    pub open spec fn same_but_cursor(&self, other: &RGTStatus) -> bool {
        &&& self.path == other.path
        &&& self.cursor.column == other.cursor.column
        &&& self.terminal_size == other.terminal_size
        &&& self.branch_name == other.branch_name
        &&& self.staged_file_indexes@ == other.staged_file_indexes@
        &&& self.modified_file_indexes@ == other.modified_file_indexes@
        &&& self.untracked_file_indexes@ == other.untracked_file_indexes@
        &&& self.file_list@ == other.file_list@
        &&& self.editor == other.editor
        &&& self.pager == other.pager
    }

    /// An empty view of the working tree at `path`, before its first query,
    /// with the programs that editing and paging run.
    pub fn new(path: String, terminal_size: Size, editor: Option<String>, pager: Option<String>) -> (r: Self)
        ensures
            r.wf(),
            r.hint_is_current(),
            r.path == path,
            r.terminal_size == terminal_size,
            r.editor == editor,
            r.pager == pager,
            r.cursor == (Cursor { row: 0, column: 0 }),
            r.branch_name@ == Seq::<char>::empty(),
            r.staged_file_indexes@.len() == 0,
            r.modified_file_indexes@.len() == 0,
            r.untracked_file_indexes@.len() == 0,
    {
        let staged: Vec<FileIndex> = Vec::new();
        let modified: Vec<FileIndex> = Vec::new();
        let untracked: Vec<FileIndex> = Vec::new();
        let file_list = build(&staged, &modified, &untracked);
        let mut s = RGTStatus {
            path,
            cursor: Cursor { row: 0, column: 0 },
            terminal_size,
            branch_name: String::new(),
            staged_file_indexes: staged,
            modified_file_indexes: modified,
            untracked_file_indexes: untracked,
            file_list,
            status_message: String::new(),
            editor,
            pager,
        };
        s.update_status_message();
        s
    }

    /// Rebuilds the view wholesale from a fresh status query. The cursor
    /// keeps its row number, moved up to the last row where the view has
    /// shrunk past it, so after a change it may stand on another file.
    pub fn open(
        &mut self,
        branch_name: String,
        staged: Vec<FileIndex>,
        modified: Vec<FileIndex>,
        untracked: Vec<FileIndex>,
    )
        ensures
            final(self).wf(),
            final(self).hint_is_current(),
            final(self).branch_name == branch_name,
            final(self).staged_file_indexes@ == staged@,
            final(self).modified_file_indexes@ == modified@,
            final(self).untracked_file_indexes@ == untracked@,
            final(self).cursor.row == kept_row(
                old(self).cursor.row as nat,
                row_count(staged@.len(), modified@.len(), untracked@.len()),
            ),
            final(self).cursor.column == old(self).cursor.column,
            final(self).path == old(self).path,
            final(self).terminal_size == old(self).terminal_size,
            final(self).editor == old(self).editor,
            final(self).pager == old(self).pager,
    {
        let file_list = build(&staged, &modified, &untracked);
        proof {
            crate::laws::lemma_row_count(staged@, modified@, untracked@);
        }
        self.branch_name = branch_name;
        self.staged_file_indexes = staged;
        self.modified_file_indexes = modified;
        self.untracked_file_indexes = untracked;
        let count = file_list.len();
        self.file_list = file_list;
        if self.cursor.row >= count {
            self.cursor.row = count - 1;
        }
        self.update_status_message();
    }

    /// The entry under the cursor, or nothing on a structural row.
    pub fn find_file_index(&self) -> (r: Option<&FileIndex>)
        ensures
            r is Some <==> self.current() is Some,
            r is Some ==> *r->Some_0 == self.current()->Some_0,
    {
        find_entry(&self.file_list, self.cursor.row)
    }

    /// The path under the cursor, or nothing where there is no entry or its
    /// path is empty.
    pub fn find_file_name(&self) -> (r: Option<String>)
        ensures
            r is Some <==> named(self.current()) is Some,
            r is Some ==> r->Some_0@ == named(self.current())->Some_0.name@,
    {
        match self.find_file_index() {
            Some(e) => {
                if e.name.as_str().unicode_len() == 0 {
                    None
                } else {
                    Some(e.name.clone())
                }
            },
            None => None,
        }
    }

    /// Sets the status bar to the hint for the current row.
    pub fn update_status_message(&mut self)
        ensures
            final(self).hint_is_current(),
            final(self).same_but_cursor(old(self)),
            final(self).cursor == old(self).cursor,
    {
        let m = status_message_for(self.find_file_index());
        self.status_message = m;
    }

    /// Moves the cursor up one row, staying on the first row.
    pub fn cursor_up(&mut self)
        requires
            old(self).wf(),
        ensures
            final(self).wf(),
            final(self).hint_is_current(),
            final(self).same_but_cursor(old(self)),
            final(self).cursor.row == up_row(old(self).cursor.row as nat),
    {
        if self.cursor.row > 0 {
            self.cursor.row = self.cursor.row - 1;
        }
        self.update_status_message();
    }

    /// Moves the cursor down one row, staying on the last row.
    pub fn cursor_down(&mut self)
        requires
            old(self).wf(),
        ensures
            final(self).wf(),
            final(self).hint_is_current(),
            final(self).same_but_cursor(old(self)),
            final(self).cursor.row == down_row(old(self).cursor.row as nat, old(self).file_list@.len()),
    {
        if self.cursor.row < self.file_list.len() - 1 {
            self.cursor.row = self.cursor.row + 1;
        }
        self.update_status_message();
    }

    /// The command that stages the file under the cursor.
    pub fn stage_file(&self) -> (r: Option<ProcessCall>)
        ensures
            r is Some <==> named(self.current()) is Some,
            r is Some ==> r->Some_0.is_call("git"@, seq!["add"@, named(self.current())->Some_0.name@]),
    {
        match self.find_file_name() {
            Some(name) => Some(stage_file(name.as_str())),
            None => None,
        }
    }

    /// The command that unstages the file under the cursor.
    pub fn unstage_file(&self) -> (r: Option<ProcessCall>)
        ensures
            r is Some <==> named(self.current()) is Some,
            r is Some ==> r->Some_0.is_call(
                "git"@,
                seq!["reset"@, "HEAD"@, named(self.current())->Some_0.name@],
            ),
    {
        match self.find_file_name() {
            Some(name) => Some(unstage_file(name.as_str())),
            None => None,
        }
    }

    /// The command that toggles the file under the cursor between staged
    /// and not.
    pub fn stage_or_unstage_file(&self) -> (r: Option<ProcessCall>)
        ensures
            toggle_call(self.current(), r),
    {
        match self.find_file_index() {
            Some(e) => {
                if !e.untracked && e.staged {
                    self.unstage_file()
                } else {
                    self.stage_file()
                }
            },
            None => None,
        }
    }

    /// The command that shows the changes of the file under the cursor.
    pub fn diff_file(&self) -> (r: Option<ProcessCall>)
        ensures
            r is Some <==> named(self.current()) is Some,
            r is Some && named(self.current())->Some_0.staged ==> r->Some_0.is_call(
                "git"@,
                seq!["diff"@, "--cached"@, named(self.current())->Some_0.name@],
            ),
            r is Some && !named(self.current())->Some_0.staged ==> r->Some_0.is_call(
                "git"@,
                seq!["diff"@, named(self.current())->Some_0.name@],
            ),
    {
        let staged = match self.find_file_index() {
            Some(e) => e.staged,
            None => false,
        };
        match self.find_file_name() {
            Some(name) => {
                let mut args: Vec<String> = Vec::new();
                args.push(String::from_str("diff"));
                if staged {
                    args.push(String::from_str("--cached"));
                }
                args.push(name);
                proof {
                    if staged {
                        assert(crate::file_status::views_of(args@) =~= seq![
                            "diff"@,
                            "--cached"@,
                            named(self.current())->Some_0.name@,
                        ]);
                    } else {
                        assert(crate::file_status::views_of(args@) =~= seq![
                            "diff"@,
                            named(self.current())->Some_0.name@,
                        ]);
                    }
                }
                Some(git_call(args))
            },
            None => None,
        }
    }

    /// The command that pages the file under the cursor, where a pager is
    /// configured.
    pub fn pager_file(&self) -> (r: Option<ProcessCall>)
        ensures
            r is Some <==> named(self.current()) is Some && configured(self.pager),
            r is Some ==> r->Some_0.is_call(
                self.pager->Some_0@,
                seq![named(self.current())->Some_0.name@],
            ),
    {
        run_on_current(&self.pager, self.find_file_name())
    }

    /// The command that opens the file under the cursor in the editor, where
    /// one is configured.
    pub fn edit_file(&self) -> (r: Option<ProcessCall>)
        ensures
            edit_call(self.current(), self.editor, r),
    {
        run_on_current(&self.editor, self.find_file_name())
    }

    /// The command that views the file under the cursor: untracked files in
    /// the pager, the others as a diff.
    pub fn diff_or_pager_file(&self) -> (r: Option<ProcessCall>)
        ensures
            view_call(self.current(), self.pager, r),
    {
        match self.find_file_index() {
            Some(e) => {
                if e.untracked {
                    self.pager_file()
                } else {
                    self.diff_file()
                }
            },
            None => None,
        }
    }

    /// The command that commits what is staged: `git commit`.
    pub fn commit_files(&self) -> (r: ProcessCall)
        ensures
            r.is_call("git"@, seq!["commit"@]),
    {
        let mut args: Vec<String> = Vec::new();
        args.push(String::from_str("commit"));
        assert(crate::file_status::views_of(args@) =~= seq!["commit"@]);
        git_call(args)
    }

    /// The frame that shows the view.
    pub fn draw(&self) -> (r: String)
        ensures
            r@ == frame_text(
                self.branch_name@,
                self.staged_file_indexes@,
                self.modified_file_indexes@,
                self.untracked_file_indexes@,
                self.file_list@.len(),
                self.terminal_size.height as nat,
                self.terminal_size.width as nat,
                self.status_message@,
                self.cursor.row as nat,
                self.cursor.column as nat,
            ),
    {
        render_frame(
            self.branch_name.as_str(),
            &self.staged_file_indexes,
            &self.modified_file_indexes,
            &self.untracked_file_indexes,
            self.file_list.len(),
            self.terminal_size.height,
            self.terminal_size.width,
            self.status_message.as_str(),
            self.cursor.row,
            self.cursor.column,
        )
    }

    /// Handles one key: `k` and `j` move the cursor, `u` toggles staging,
    /// `Enter` views the file, `e` edits it, `c` commits, `q` quits; any
    /// other key changes nothing.
    pub fn handle_key(&mut self, key: char) -> (r: Action)
        requires
            old(self).wf(),
        ensures
            final(self).wf(),
            (key == 'q') == (r is Quit),
            key == 'k' ==> final(self).same_but_cursor(old(self)) && final(self).hint_is_current()
                && final(self).cursor.row == up_row(old(self).cursor.row as nat),
            key == 'j' ==> final(self).same_but_cursor(old(self)) && final(self).hint_is_current()
                && final(self).cursor.row == down_row(
                old(self).cursor.row as nat,
                old(self).file_list@.len(),
            ),
            key != 'k' && key != 'j' ==> *final(self) == *old(self),
            key == 'u' ==> toggle_call(old(self).current(), call_of(r)),
            key == '\n' ==> view_call(old(self).current(), old(self).pager, call_of(r)),
            key == 'e' ==> edit_call(old(self).current(), old(self).editor, call_of(r)),
            key == 'c' ==> call_of(r) is Some && call_of(r)->Some_0.is_call("git"@, seq!["commit"@]),
            key != 'u' && key != '\n' && key != 'e' && key != 'c' ==> call_of(r) is None,
            r is Run ==> r->reopen == (key == 'u' || key == 'c'),
            !(r is Quit) && call_of(r) is None ==> r is Redraw,
    {
        if key == 'q' {
            Action::Quit
        } else if key == 'k' {
            self.cursor_up();
            Action::Redraw
        } else if key == 'j' {
            self.cursor_down();
            Action::Redraw
        } else if key == 'u' {
            launch(self.stage_or_unstage_file(), true)
        } else if key == '\n' {
            launch(self.diff_or_pager_file(), false)
        } else if key == 'e' {
            launch(self.edit_file(), false)
        } else if key == 'c' {
            Action::Run { call: self.commit_files(), reopen: true }
        } else {
            Action::Redraw
        }
    }
}

/// The program `program` run on `name`, where both are there and the
/// program is not empty.
fn run_on_current(program: &Option<String>, name: Option<String>) -> (r: Option<ProcessCall>)
    ensures
        r is Some <==> configured(*program) && name is Some,
        r is Some ==> r->Some_0.is_call(program->Some_0@, seq![name->Some_0@]),
{
    match (program, name) {
        (Some(p), Some(n)) => {
            if p.as_str().unicode_len() == 0 {
                None
            } else {
                let mut args: Vec<String> = Vec::new();
                args.push(n);
                assert(crate::file_status::views_of(args@) =~= seq![name->Some_0@]);
                Some(ProcessCall { program: p.clone(), args })
            }
        },
        _ => None,
    }
}

fn launch(c: Option<ProcessCall>, reopen: bool) -> (r: Action)
    ensures
        call_of(r) == c,
        r is Run ==> r->reopen == reopen,
        c is None ==> r is Redraw,
{
    match c {
        Some(call) => Action::Run { call, reopen },
        None => Action::Redraw,
    }
}

} // verus!
