//! Verified core of the class-preparation setup checker: the allowlist of
//! diagnostic, install and login commands, how their output is read, how
//! approved actions proceed, and the reports handed to the instructor.
use vstd::prelude::*;

pub mod catalog;
pub mod commands;
pub mod diagnostics;
pub mod execution;
pub mod launch;
pub mod laws;
pub mod plan;
pub mod redaction;
pub mod report;
pub mod scripts;
pub mod text;

verus! {

/// The titles of the native menus, in Korean: file, edit, view, window, help.
pub const NATIVE_MENU_LABELS_KO: [&'static str; 5] = ["파일", "편집", "보기", "창", "도움말"];

} // verus!
