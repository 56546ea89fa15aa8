use vstd::prelude::*;
use crate::file_status::FileIndex;
use crate::rows::{entry_at, layout, row_count, section_len, section_rows, Row};
use crate::status::{down_row, up_row};

verus! {

/// However long the three lists are, empty ones included, the view has the
/// four fixed rows plus, per section, one row per entry or one placeholder.
pub proof fn lemma_row_count(staged: Seq<FileIndex>, modified: Seq<FileIndex>, untracked: Seq<FileIndex>)
    ensures
        layout(staged, modified, untracked).len() == row_count(
            staged.len(),
            modified.len(),
            untracked.len(),
        ),
{
    assert(section_rows(staged).len() == section_len(staged.len()));
    assert(section_rows(modified).len() == section_len(modified.len()));
    assert(section_rows(untracked).len() == section_len(untracked.len()));
}


/// Two builds from the same lists give the same rows, of the same count.
pub proof fn lemma_build_stable(
    staged: Seq<FileIndex>,
    modified: Seq<FileIndex>,
    untracked: Seq<FileIndex>,
    first: Seq<Row>,
    second: Seq<Row>,
)
    requires
        first == layout(staged, modified, untracked),
        second == layout(staged, modified, untracked),
    ensures
        first == second,
        first.len() == row_count(staged.len(), modified.len(), untracked.len()),
{
    lemma_row_count(staged, modified, untracked);
}

/// The row reached from `row` by a sequence of moves, `true` for down and
/// `false` for up, in a view of `count` rows.
pub open spec fn after_moves(row: nat, count: nat, moves: Seq<bool>) -> nat
    decreases moves.len(),
{
    if moves.len() == 0 {
        row
    } else {
        let prev = after_moves(row, count, moves.drop_last());
        if moves.last() {
            down_row(prev, count)
        } else {
            up_row(prev)
        }
    }
}

/// Moving up from the first row and down from the last row change nothing,
/// and any sequence of moves from a row of the view ends on a row of it.
pub proof fn lemma_moves_stay_in_range(row: nat, count: nat, moves: Seq<bool>)
    requires
        row < count,
    ensures
        up_row(0) == 0,
        down_row((count - 1) as nat, count) == count - 1,
        after_moves(row, count, moves) < count,
    decreases moves.len(),
{
    if moves.len() > 0 {
        lemma_moves_stay_in_range(row, count, moves.drop_last());
    }
}

/// The row of the `j`-th staged entry.
pub open spec fn staged_row(j: int) -> int {
    2 + j
}

/// The row of the `j`-th modified entry.
pub open spec fn modified_row(staged: nat, j: int) -> int {
    3 + section_len(staged) + j
}

/// The row of the `j`-th untracked entry.
pub open spec fn untracked_row(staged: nat, modified: nat, j: int) -> int {
    4 + section_len(staged) + section_len(modified) + j
}

/// Looking up the row of any entry that went into a build gives that entry
/// back, with all its fields; and every row that holds an entry is the row
/// of one that went in.
pub proof fn lemma_round_trip(staged: Seq<FileIndex>, modified: Seq<FileIndex>, untracked: Seq<FileIndex>)
    ensures
        forall|j: int|
            0 <= j < staged.len() ==> entry_at(layout(staged, modified, untracked), #[trigger] staged_row(j))
                == Some(staged[j]),
        forall|j: int|
            0 <= j < modified.len() ==> entry_at(
                layout(staged, modified, untracked),
                #[trigger] modified_row(staged.len(), j),
            ) == Some(modified[j]),
        forall|j: int|
            0 <= j < untracked.len() ==> entry_at(
                layout(staged, modified, untracked),
                #[trigger] untracked_row(staged.len(), modified.len(), j),
            ) == Some(untracked[j]),
        forall|i: int|
            #![trigger entry_at(layout(staged, modified, untracked), i)]
            entry_at(layout(staged, modified, untracked), i) is Some ==> {
                ||| (0 <= i - 2 < staged.len() && entry_at(layout(staged, modified, untracked), i)
                    == Some(staged[i - 2]))
                ||| (0 <= i - modified_row(staged.len(), 0) < modified.len() && entry_at(
                    layout(staged, modified, untracked),
                    i,
                ) == Some(modified[i - modified_row(staged.len(), 0)]))
                ||| (0 <= i - untracked_row(staged.len(), modified.len(), 0) < untracked.len()
                    && entry_at(layout(staged, modified, untracked), i) == Some(
                    untracked[i - untracked_row(staged.len(), modified.len(), 0)],
                ))
            },
{
    let rows = layout(staged, modified, untracked);
    let a = section_len(staged.len()) as int;
    let b = section_len(modified.len()) as int;
    let c = section_len(untracked.len()) as int;
    lemma_row_count(staged, modified, untracked);
    assert(section_rows(staged).len() == a);
    assert(section_rows(modified).len() == b);
    assert(section_rows(untracked).len() == c);
    assert forall|i: int| 0 <= i < rows.len() implies rows[i] == if i < 2 {
        Row::Spacer
    } else if i < 2 + a {
        section_rows(staged)[i - 2]
    } else if i == 2 + a {
        Row::Spacer
    } else if i < 3 + a + b {
        section_rows(modified)[i - 3 - a]
    } else if i == 3 + a + b {
        Row::Spacer
    } else {
        section_rows(untracked)[i - 4 - a - b]
    } by {}
    assert forall|j: int| 0 <= j < staged.len() implies entry_at(rows, #[trigger] staged_row(j))
        == Some(staged[j]) by {
        assert(rows[2 + j] == section_rows(staged)[j]);
    }
    assert forall|j: int| 0 <= j < modified.len() implies entry_at(
        rows,
        #[trigger] modified_row(staged.len(), j),
    ) == Some(modified[j]) by {
        assert(rows[3 + a + j] == section_rows(modified)[j]);
    }
    assert forall|j: int| 0 <= j < untracked.len() implies entry_at(
        rows,
        #[trigger] untracked_row(staged.len(), modified.len(), j),
    ) == Some(untracked[j]) by {
        assert(rows[4 + a + b + j] == section_rows(untracked)[j]);
    }
}

} // verus!
