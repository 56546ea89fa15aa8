use vstd::prelude::*;

verus! {

/// One line of status output: a status code and a path, with the section
/// that it was listed under.
#[derive(Debug, Clone, PartialEq, Eq)]
pub struct FileIndex {
    pub status: String,
    pub name: String,
    pub staged: bool,
    pub untracked: bool,
}

/// The section of the status view that an entry belongs to.
#[derive(Debug, Clone, Copy, PartialEq, Eq, Structural)]
pub enum Section {
    Staged,
    Modified,
    Untracked,
}

impl FileIndex {
    /// Untracked wins over staged; an entry that is neither is modified.
    pub open spec fn section(&self) -> Section {
        if self.untracked {
            Section::Untracked
        } else if self.staged {
            Section::Staged
        } else {
            Section::Modified
        }
    }
}

/// The prefix that a local branch's full reference name starts with.
pub open spec fn heads_prefix() -> Seq<char> {
    seq!['r', 'e', 'f', 's', '/', 'h', 'e', 'a', 'd', 's', '/']
}

/// The branch name shown for a reference name: the reference with one
/// leading `refs/heads/` taken off, or the whole reference where it has none.
pub open spec fn branch_of(ref_name: Seq<char>) -> Seq<char> {
    if heads_prefix().is_prefix_of(ref_name) {
        ref_name.skip(heads_prefix().len() as int)
    } else {
        ref_name
    }
}

/// An entry with no status and no path, which stands for no file.
pub fn default_file_index() -> (r: FileIndex)
    ensures
        r.status@ == Seq::<char>::empty(),
        r.name@ == Seq::<char>::empty(),
        !r.staged,
        r.untracked,
{
    FileIndex { status: String::new(), name: String::new(), staged: false, untracked: true }
}

/// The branch name to display for the reference that HEAD points at.
pub fn branch_name(ref_name: &str) -> (r: String)
    ensures
        r@ == branch_of(ref_name@),
{
    let prefix = "refs/heads/";
    proof {
        reveal_strlit("refs/heads/");
    }
    assert(prefix@ == heads_prefix());
    let n = ref_name.unicode_len();
    let p: usize = 11;
    if n < p {
        return String::from_str(ref_name);
    }
    let mut i: usize = 0;
    while i < p
        invariant
            i <= p,
            p == heads_prefix().len(),
            prefix@ == heads_prefix(),
            n == ref_name@.len(),
            p <= n,
            forall|k: int| 0 <= k < i ==> ref_name@[k] == heads_prefix()[k],
        decreases p - i,
    {
        if ref_name.get_char(i) != prefix.get_char(i) {
            assert(!heads_prefix().is_prefix_of(ref_name@));
            return String::from_str(ref_name);
        }
        i = i + 1;
    }
    assert(heads_prefix().is_prefix_of(ref_name@));
    String::from_str(ref_name.substring_char(p, n))
}


/// The pieces of `s` between occurrences of `sep`, in order; a string with
/// no separator is one piece, and a separator at either end leaves an empty
/// piece there.
pub open spec fn split_spec(s: Seq<char>, sep: char) -> Seq<Seq<char>>
    decreases s.len(),
{
    if s.len() == 0 {
        seq![Seq::<char>::empty()]
    } else {
        let rest = split_spec(s.drop_last(), sep);
        if s.last() == sep {
            rest.push(Seq::<char>::empty())
        } else {
            rest.update(rest.len() - 1, rest.last().push(s.last()))
        }
    }
}

pub proof fn lemma_split_nonempty(s: Seq<char>, sep: char)
    ensures
        split_spec(s, sep).len() >= 1,
    decreases s.len(),
{
    if s.len() > 0 {
        lemma_split_nonempty(s.drop_last(), sep);
    }
}

pub open spec fn views_of(v: Seq<String>) -> Seq<Seq<char>> {
    v.map_values(|x: String| x@)
}

/// Relies on `str::split` with a `char` pattern, collected into owned
/// strings: the pieces of `s` between the separators, in order.
#[verifier::external_body]
fn split_on(s: &str, sep: char) -> (r: Vec<String>)
    ensures
        views_of(r@) == split_spec(s@, sep),
{
    s.split(sep).map(String::from).collect()
}

/// The lines of command output: the pieces between newlines, less the last
/// one, which is what follows the final newline.
pub open spec fn output_lines(output: Seq<char>) -> Seq<Seq<char>> {
    split_spec(output, '\n').drop_last()
}

/// The status code of a line of `--name-status` output: its first
/// tab-separated field.
pub open spec fn status_field(line: Seq<char>) -> Seq<char> {
    split_spec(line, '\t').first()
}

/// The path of a line of `--name-status` output: its last tab-separated
/// field, which for a rename is the new path.
pub open spec fn name_field(line: Seq<char>) -> Seq<char> {
    split_spec(line, '\t').last()
}

/// The entry that a line of output stands for: a listing of untracked files
/// gives bare paths, marked `?`; the other listings give status and path.
pub open spec fn entry_matches_line(
    e: FileIndex,
    line: Seq<char>,
    staged: bool,
    untracked: bool,
) -> bool {
    &&& e.staged == staged
    &&& e.untracked == untracked
    &&& if untracked {
        e.status@ == seq!['?'] && e.name@ == line
    } else {
        e.status@ == status_field(line) && e.name@ == name_field(line)
    }
}

/// The entries that a whole command output stands for, one per line.
pub open spec fn entries_match_output(
    r: Seq<FileIndex>,
    output: Seq<char>,
    staged: bool,
    untracked: bool,
) -> bool {
    &&& r.len() == output_lines(output).len()
    &&& forall|i: int|
        0 <= i < r.len() ==> entry_matches_line(
            #[trigger] r[i],
            output_lines(output)[i],
            staged,
            untracked,
        )
}

fn entry_for_line(line: &String, staged: bool, untracked: bool) -> (r: FileIndex)
    ensures
        entry_matches_line(r, line@, staged, untracked),
{
    if untracked {
        let q = "?";
        proof {
            reveal_strlit("?");
        }
        assert(q@ =~= seq!['?']);
        FileIndex {
            status: String::from_str(q),
            name: line.clone(),
            staged,
            untracked,
        }
    } else {
        let fields = split_on(line.as_str(), '\t');
        proof {
            lemma_split_nonempty(line@, '\t');
            assert(views_of(fields@)[0] == fields@[0]@);
            assert(views_of(fields@)[fields@.len() - 1] == fields@[fields@.len() - 1]@);
        }
        let last = fields.len() - 1;
        assert(fields@[0]@ == status_field(line@));
        assert(fields@[last as int]@ == name_field(line@));
        FileIndex {
            status: fields[0].clone(),
            name: fields[last].clone(),
            staged,
            untracked,
        }
    }
}

fn file_indexes_for_output(output: &str, staged: bool, untracked: bool) -> (r: Vec<FileIndex>)
    ensures
        entries_match_output(r@, output@, staged, untracked),
{
    let lines = split_on(output, '\n');
    proof {
        lemma_split_nonempty(output@, '\n');
    }
    let n = lines.len() - 1;
    let mut r: Vec<FileIndex> = Vec::new();
    let mut i: usize = 0;
    while i < n
        invariant
            n == lines@.len() - 1,
            n == output_lines(output@).len(),
            views_of(lines@) == split_spec(output@, '\n'),
            i <= n,
            r@.len() == i,
            forall|k: int|
                0 <= k < i ==> entry_matches_line(
                    #[trigger] r@[k],
                    output_lines(output@)[k],
                    staged,
                    untracked,
                ),
        decreases n - i,
    {
        assert(views_of(lines@)[i as int] == lines@[i as int]@);
        let e = entry_for_line(&lines[i], staged, untracked);
        r.push(e);
        i = i + 1;
    }
    r
}

/// The staged entries listed by `git diff --cached --name-status`.
pub fn staged_file_indexes(output: &str) -> (r: Vec<FileIndex>)
    ensures
        entries_match_output(r@, output@, true, false),
{
    file_indexes_for_output(output, true, false)
}

/// The modified, unstaged entries listed by `git diff --name-status`.
pub fn modified_file_indexes(output: &str) -> (r: Vec<FileIndex>)
    ensures
        entries_match_output(r@, output@, false, false),
{
    file_indexes_for_output(output, false, false)
}

/// The untracked entries listed by `git ls-files --others --exclude-standard`.
pub fn untracked_file_indexes(output: &str) -> (r: Vec<FileIndex>)
    ensures
        entries_match_output(r@, output@, false, true),
{
    file_indexes_for_output(output, false, true)
}


/// An external program to run, with its arguments.
#[derive(Debug, Clone, PartialEq, Eq)]
pub struct ProcessCall {
    pub program: String,
    pub args: Vec<String>,
}

impl ProcessCall {
    pub open spec fn is_call(self, program: Seq<char>, args: Seq<Seq<char>>) -> bool {
        self.program@ == program && views_of(self.args@) == args
    }
}

/// A call of `git` with the given arguments.
pub fn git_call(args: Vec<String>) -> (r: ProcessCall)
    ensures
        r.is_call("git"@, views_of(args@)),
{
    ProcessCall { program: String::from_str("git"), args }
}

/// The command that stages `path`: `git add <path>`.
pub fn stage_file(path: &str) -> (r: ProcessCall)
    ensures
        r.is_call("git"@, seq!["add"@, path@]),
{
    let mut args: Vec<String> = Vec::new();
    args.push(String::from_str("add"));
    args.push(String::from_str(path));
    assert(views_of(args@) =~= seq!["add"@, path@]);
    git_call(args)
}

/// The command that unstages `path`: `git reset HEAD <path>`.
pub fn unstage_file(path: &str) -> (r: ProcessCall)
    ensures
        r.is_call("git"@, seq!["reset"@, "HEAD"@, path@]),
{
    let mut args: Vec<String> = Vec::new();
    args.push(String::from_str("reset"));
    args.push(String::from_str("HEAD"));
    args.push(String::from_str(path));
    assert(views_of(args@) =~= seq!["reset"@, "HEAD"@, path@]);
    git_call(args)
}

/// The command whose output `staged_file_indexes` reads.
pub fn staged_files_command() -> (r: ProcessCall)
    ensures
        r.is_call("git"@, seq!["diff"@, "--cached"@, "--name-status"@]),
{
    let mut args: Vec<String> = Vec::new();
    args.push(String::from_str("diff"));
    args.push(String::from_str("--cached"));
    args.push(String::from_str("--name-status"));
    assert(views_of(args@) =~= seq!["diff"@, "--cached"@, "--name-status"@]);
    git_call(args)
}

/// The command whose output `modified_file_indexes` reads.
pub fn modified_files_command() -> (r: ProcessCall)
    ensures
        r.is_call("git"@, seq!["diff"@, "--name-status"@]),
{
    let mut args: Vec<String> = Vec::new();
    args.push(String::from_str("diff"));
    args.push(String::from_str("--name-status"));
    assert(views_of(args@) =~= seq!["diff"@, "--name-status"@]);
    git_call(args)
}

/// The command whose output `untracked_file_indexes` reads.
pub fn untracked_files_command() -> (r: ProcessCall)
    ensures
        r.is_call("git"@, seq!["ls-files"@, "--others"@, "--exclude-standard"@]),
{
    let mut args: Vec<String> = Vec::new();
    args.push(String::from_str("ls-files"));
    args.push(String::from_str("--others"));
    args.push(String::from_str("--exclude-standard"));
    assert(views_of(args@) =~= seq!["ls-files"@, "--others"@, "--exclude-standard"@]);
    git_call(args)
}

/// A field-for-field copy of an entry.
pub fn copy_of(e: &FileIndex) -> (r: FileIndex)
    ensures
        r == *e,
{
    FileIndex {
        status: e.status.clone(),
        name: e.name.clone(),
        staged: e.staged,
        untracked: e.untracked,
    }
}

} // verus!
