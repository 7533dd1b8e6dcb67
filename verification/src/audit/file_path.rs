//! Where the audit log lives: a fixed file name under the data directory
//! the caller supplies.

use vstd::prelude::*;

use std::path::{Path, PathBuf};

verus! {

/// `std::path::Path`, carried through opaquely.
#[verifier::external_type_specification]
#[verifier::external_body]
pub struct ExPath(Path);

/// `std::path::PathBuf`, carried through opaquely.
#[verifier::external_type_specification]
#[verifier::external_body]
pub struct ExPathBuf(PathBuf);

/// File name of the audit log.
pub const AUDIT_FILE_NAME: &'static str = "skills.audit.jsonl";

/// The audit log's file name, `skills.audit.jsonl`.
pub fn audit_file_name() -> (r: &'static str)
    ensures
        r@ == "skills.audit.jsonl"@,
{
    AUDIT_FILE_NAME
}

/// What `Path::join` returns for `dir` and the file name `name`.
pub uninterp spec fn joined_path(dir: &Path, name: Seq<char>) -> PathBuf;

/// Calls `Path::join(dir, name)`. Claims only that the result is a
/// function of the directory and the name (named `joined_path`): `join`
/// reads nothing but its arguments. Paths are opaque to Verus, so what
/// the joined path looks like is not stated.
#[verifier::external_body]
fn join_path(dir: &Path, name: &str) -> (r: PathBuf)
    ensures
        r == joined_path(dir, name@),
{
    dir.join(name)
}

/// The audit log's path: `dir` joined with `skills.audit.jsonl`.
pub fn audit_path(dir: &Path) -> (r: PathBuf)
    ensures
        r == joined_path(dir, "skills.audit.jsonl"@),
{
    join_path(dir, audit_file_name())
}

} // verus!
