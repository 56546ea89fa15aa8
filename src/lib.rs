//! The status-view engine of a terminal front end to a version-controlled
//! working tree: the parsed file lists, the flattened row model with its
//! cursor, the status bar, the frame renderer and the key dispatcher.

mod file_status;
mod rows;
mod status_bar;
mod render;
mod status;
mod laws;

pub use file_status::{
    branch_name, copy_of, default_file_index, git_call, modified_file_indexes,
    modified_files_command, stage_file, staged_file_indexes, staged_files_command, unstage_file,
    untracked_file_indexes, untracked_files_command, FileIndex, ProcessCall, Section,
};
pub use rows::{build, find_entry, forward_file_list, push_file_index, push_file_indexes, Row};
pub use status_bar::{lemma_messages_differ, lemma_status_text_total, status_message_for};
pub use render::{push_padded, push_repeated, push_section, render_frame};
pub use status::{Action, Cursor, RGTStatus, Size};
pub use laws::{lemma_build_stable, lemma_moves_stay_in_range, lemma_round_trip, lemma_row_count};
