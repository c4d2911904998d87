//! The decisions of a small file-handling program, as a verified state machine.
//!
//! The program reads a text file, writes a fixed text to another file, lists a
//! directory, reports whether a path is a directory and creates a nested
//! directory. All filesystem work is done by the caller; this crate decides
//! what is asked for next, what is printed, and which failures end the run.

pub mod laws;
pub mod messages;
pub mod runner;

pub use messages::{
    creation_report, directory_flag_report, entry_line, fatal_message, file_contents_report,
    listing_failure_report, write_report, FileFailure, INPUT_PATH, LISTED_DIR, LOREM_IPSUM,
    NESTED_DIR, NESTED_PARENT, NOT_A_DIRECTORY, OUTPUT_PATH,
};
pub use runner::{Action, Event, Request, Runner, Stage};
pub use laws::{
    lemma_directory_flag_reported, lemma_each_entry_listed_once, lemma_input_contents_printed,
    lemma_nested_creation_never_fatal, lemma_not_a_directory_reported,
    lemma_only_file_failures_abort, lemma_output_holds_fixed_text, lemma_unreadable_input_aborts,
};
