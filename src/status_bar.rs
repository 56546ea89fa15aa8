use vstd::prelude::*;
use crate::file_status::{FileIndex, Section};

verus! {

pub open spec fn nothing_msg() -> Seq<char> {
    "Nothing to update"@
}

pub open spec fn add_msg(path: Seq<char>) -> Seq<char> {
    "Press u to stage '"@ + path + "' for addition"@
}

pub open spec fn unstage_msg(path: Seq<char>) -> Seq<char> {
    "Press u to unstage '"@ + path + "' for commit"@
}

pub open spec fn stage_msg(path: Seq<char>) -> Seq<char> {
    "Press u to stage '"@ + path + "' for commit"@
}

/// The hint for the row under the cursor: what `u` would do to its entry,
/// or that there is nothing to do where it holds no entry or an empty path.
pub open spec fn status_text(entry: Option<FileIndex>) -> Seq<char> {
    match entry {
        None => nothing_msg(),
        Some(e) => if e.name@.len() == 0 {
            nothing_msg()
        } else {
            match e.section() {
                Section::Untracked => add_msg(e.name@),
                Section::Staged => unstage_msg(e.name@),
                Section::Modified => stage_msg(e.name@),
            }
        },
    }
}

/// The status-bar text for the entry under the cursor.
pub fn status_message_for(entry: Option<&FileIndex>) -> (r: String)
    ensures
        r@ == status_text(
            match entry {
                Some(e) => Some(*e),
                None => None,
            },
        ),
{
    match entry {
        None => String::from_str("Nothing to update"),
        Some(e) => {
            if e.name.as_str().unicode_len() == 0 {
                String::from_str("Nothing to update")
            } else if e.untracked {
                String::from_str("Press u to stage '").concat(e.name.as_str()).concat(
                    "' for addition",
                )
            } else if e.staged {
                String::from_str("Press u to unstage '").concat(e.name.as_str()).concat(
                    "' for commit",
                )
            } else {
                String::from_str("Press u to stage '").concat(e.name.as_str()).concat(
                    "' for commit",
                )
            }
        },
    }
}

/// Every entry, and the lack of one, gets exactly one of the four hints,
/// with the entry's path in it as it stands.
pub proof fn lemma_status_text_total(entry: Option<FileIndex>)
    ensures
        ({
            let t = status_text(entry);
            let p = match entry {
                Some(e) => e.name@,
                None => Seq::<char>::empty(),
            };
            &&& t == nothing_msg() || t == add_msg(p) || t == unstage_msg(p) || t == stage_msg(p)
            &&& t == nothing_msg() ==> t != add_msg(p) && t != unstage_msg(p) && t != stage_msg(p)
            &&& t == add_msg(p) ==> t != unstage_msg(p) && t != stage_msg(p)
            &&& t == unstage_msg(p) ==> t != stage_msg(p)
        }),
{
    lemma_messages_differ(match entry {
        Some(e) => e.name@,
        None => Seq::<char>::empty(),
    });
}

/// The four hints differ from one another for any one path.
pub proof fn lemma_messages_differ(p: Seq<char>)
    ensures
        nothing_msg() != add_msg(p),
        nothing_msg() != unstage_msg(p),
        nothing_msg() != stage_msg(p),
        add_msg(p) != unstage_msg(p),
        add_msg(p) != stage_msg(p),
        unstage_msg(p) != stage_msg(p),
{
    reveal_strlit("Nothing to update");
    reveal_strlit("Press u to stage '");
    reveal_strlit("Press u to unstage '");
    reveal_strlit("' for addition");
    reveal_strlit("' for commit");
    assert(nothing_msg()[0] != add_msg(p)[0]);
    assert(nothing_msg()[0] != unstage_msg(p)[0]);
    assert(nothing_msg()[0] != stage_msg(p)[0]);
    assert(add_msg(p)[11] != unstage_msg(p)[11]);
    assert(unstage_msg(p)[11] != stage_msg(p)[11]);
    assert(add_msg(p).len() != stage_msg(p).len());
}

} // verus!
