use vstd::prelude::*;
use crate::file_status::{copy_of, FileIndex};

verus! {

/// A line of the status view: a file entry, or a line that holds none (the
/// branch line, a section header, an empty section's placeholder).
#[derive(Debug, Clone, PartialEq, Eq)]
pub enum Row {
    Spacer,
    File(FileIndex),
}

/// The rows of one section: one per entry, or a single placeholder row when
/// the section is empty.
pub open spec fn section_rows(l: Seq<FileIndex>) -> Seq<Row> {
    if l.len() == 0 {
        seq![Row::Spacer]
    } else {
        l.map_values(|e: FileIndex| Row::File(e))
    }
}

/// The whole row sequence: the branch line and the staged header, the staged
/// section, the modified header, the modified section, the untracked header,
/// the untracked section.
pub open spec fn layout(staged: Seq<FileIndex>, modified: Seq<FileIndex>, untracked: Seq<FileIndex>) -> Seq<Row> {
    seq![Row::Spacer, Row::Spacer] + section_rows(staged) + seq![Row::Spacer]
        + section_rows(modified) + seq![Row::Spacer] + section_rows(untracked)
}

/// The number of rows that a section of `n` entries takes.
pub open spec fn section_len(n: nat) -> nat {
    if n == 0 {
        1
    } else {
        n
    }
}

/// The number of rows of the whole view, in closed form.
pub open spec fn row_count(staged: nat, modified: nat, untracked: nat) -> nat {
    4 + section_len(staged) + section_len(modified) + section_len(untracked)
}

/// The entry on row `i`, if that row exists and holds one.
pub open spec fn entry_at(rows: Seq<Row>, i: int) -> Option<FileIndex> {
    if 0 <= i < rows.len() {
        match rows[i] {
            Row::File(e) => Some(e),
            Row::Spacer => None,
        }
    } else {
        None
    }
}

/// Appends `n` structural rows.
pub fn forward_file_list(rows: &mut Vec<Row>, n: usize)
    ensures
        final(rows)@ == old(rows)@ + Seq::new(n as nat, |k: int| Row::Spacer),
{
    let ghost start = rows@;
    let mut i: usize = 0;
    while i < n
        invariant
            i <= n,
            rows@ == start + Seq::new(i as nat, |k: int| Row::Spacer),
        decreases n - i,
    {
        rows.push(Row::Spacer);
        i = i + 1;
        assert(rows@ =~= start + Seq::new(i as nat, |k: int| Row::Spacer));
    }
}

/// Appends a row for `e`.
pub fn push_file_index(rows: &mut Vec<Row>, e: FileIndex)
    ensures
        final(rows)@ == old(rows)@.push(Row::File(e)),
{
    rows.push(Row::File(e));
}

/// Appends a row for each entry of `list`, in order.
pub fn push_file_indexes(rows: &mut Vec<Row>, list: &Vec<FileIndex>)
    ensures
        final(rows)@ == old(rows)@ + list@.map_values(|e: FileIndex| Row::File(e)),
{
    let ghost start = rows@;
    let mut i: usize = 0;
    while i < list.len()
        invariant
            i <= list@.len(),
            rows@ == start + list@.take(i as int).map_values(|e: FileIndex| Row::File(e)),
        decreases list@.len() - i,
    {
        push_file_index(rows, copy_of(&list[i]));
        i = i + 1;
        assert(rows@ =~= start + list@.take(i as int).map_values(|e: FileIndex| Row::File(e)));
    }
    assert(list@.take(list@.len() as int) =~= list@);
}

fn push_section(rows: &mut Vec<Row>, list: &Vec<FileIndex>)
    ensures
        final(rows)@ == old(rows)@ + section_rows(list@),
{
    if list.len() == 0 {
        forward_file_list(rows, 1);
        assert(Seq::new(1, |k: int| Row::Spacer) =~= seq![Row::Spacer]);
    } else {
        push_file_indexes(rows, list);
    }
}

/// Lays the three sections out as the rows of the view.
pub fn build(staged: &Vec<FileIndex>, modified: &Vec<FileIndex>, untracked: &Vec<FileIndex>) -> (r: Vec<Row>)
    ensures
        r@ == layout(staged@, modified@, untracked@),
{
    let mut rows: Vec<Row> = Vec::new();
    forward_file_list(&mut rows, 2);
    assert(rows@ =~= seq![Row::Spacer, Row::Spacer]);
    push_section(&mut rows, staged);
    forward_file_list(&mut rows, 1);
    push_section(&mut rows, modified);
    forward_file_list(&mut rows, 1);
    push_section(&mut rows, untracked);
    assert(Seq::new(1, |k: int| Row::Spacer) =~= seq![Row::Spacer]);
    assert(rows@ =~= layout(staged@, modified@, untracked@));
    rows
}

/// The entry on row `row`, or nothing on a structural row or past the end.
pub fn find_entry(rows: &Vec<Row>, row: usize) -> (r: Option<&FileIndex>)
    ensures
        r is Some <==> entry_at(rows@, row as int) is Some,
        r is Some ==> *r->Some_0 == entry_at(rows@, row as int)->Some_0,
{
    if row < rows.len() {
        match &rows[row] {
            Row::File(e) => Some(e),
            Row::Spacer => None,
        }
    } else {
        None
    }
}

} // verus!
