//! Reads the JSON files bundled with the application under its resource
//! directory.
//!
//! Finding the resource directory and reading a file are left to the caller,
//! which hands in the directory it found (or why it found none) and a function
//! that reads one file below a directory. What is read, and what each command
//! returns for every outcome of those two steps, is stated and proved here.
mod asset;
mod command;

pub use asset::{relative_path_of, Asset};
pub use command::{
    lemma_other_asset_does_not_matter, lemma_read_failure_is_returned,
    lemma_read_is_idempotent, lemma_read_matches_files, lemma_read_returns_contents,
    lemma_unresolved_directory_fails, read_asset, read_code_json, read_employee_json,
    read_model, read_outcome, reads_from,
};
