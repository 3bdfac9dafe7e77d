//! Archive orchestration: derive the archive directory, ensure it
//! exists, then move the target or append to its archive file.

use vstd::prelude::*;

verus! {

use vstd::string::StringExecFns;
use crate::fsops::FileOps;
use crate::fsops::FsError;
use crate::paths::spec_join;
use crate::paths::spec_parent;
use crate::paths::spec_parent_or_self;
use crate::paths::spec_base_name;
use crate::paths::spec_last_slash;
use crate::paths::spec_archive_dir_for_file;
use crate::paths::spec_archive_dir_for_dir;
use crate::paths::lemma_last_slash;
use crate::paths::path_parent;
use crate::paths::path_join;
use crate::paths::base_name_of;
use crate::paths::archive_dir_for_file_pure;
use crate::paths::archive_dir_for_dir_pure;

/// The shape a target path has after `main` canonicalizes it: an
/// absolute path with a named final component.
pub open spec fn valid_target(p: Seq<char>) -> bool {
    p.len() >= 2 && p[0] == '/' && p.last() != '/'
}

/// A valid target has a parent and a non-empty base name.
pub proof fn lemma_valid_target(p: Seq<char>)
    requires
        valid_target(p),
    ensures
        spec_parent(p) is Some,
        spec_last_slash(p) < p.len() - 1,
        spec_base_name(p).len() > 0,
{
    lemma_last_slash(p);
    if spec_last_slash(p) == -1 {
        assert(p[0] != '/');
    }
    if p == seq!['/'] {
        assert(p.len() == 1);
    }
    if spec_last_slash(p) == p.len() - 1 {
        assert(p.last() == '/');
    }
}

/// Where an archived file of path `file` lands:
/// `<parent>/archive/<base name>`.
pub open spec fn spec_file_archive_dest(file: Seq<char>) -> Seq<char> {
    spec_join(spec_archive_dir_for_file(spec_parent_or_self(file)), spec_base_name(file))
}

/// Where an archived directory of path `dir` lands: beside its
/// parent, as `<grandparent>/archive/<base name>`.
pub open spec fn spec_dir_archive_dest(dir: Seq<char>) -> Seq<char> {
    spec_join(spec_archive_dir_for_dir(spec_parent_or_self(dir)), spec_base_name(dir))
}

/// Why an archive operation failed: the step, the paths it was
/// touching, and the filesystem's own report.
#[derive(Debug)]
pub enum ArchiveError {
    /// The archive directory could not be created.
    CreateDir { dir: String, cause: FsError },
    /// The target could not be moved to its destination.
    Rename { from: String, to: String, cause: FsError },
    /// The archive file could not be appended to.
    Append { dest: String, cause: FsError },
}

/// The parent directory of a valid target.
fn parent_of_target(p: &str) -> (r: String)
    requires
        valid_target(p@),
    ensures
        spec_parent(p@) == Some(r@),
        r@ == spec_parent_or_self(p@),
{
    proof {
        lemma_valid_target(p@);
    }
    match path_parent(p) {
        Some(q) => q,
        None => {
            proof {
                assert(false);
            }
            String::new()
        },
    }
}

/// Move a file into the archive folder beside it, under its original
/// base name, through the given file operations. On success the
/// destination path is returned; an error names the step that failed
/// and the exact paths involved.
pub fn archive_move_file_with<F: FileOps>(file: &str, ops: &F) -> (r: Result<
    String,
    ArchiveError,
>)
    requires
        valid_target(file@),
    ensures
        ops.infallible() ==> r is Ok,
        match r {
            Ok(dest) => dest@ == spec_file_archive_dest(file@),
            Err(e) => match e {
                ArchiveError::CreateDir { dir, .. } => dir@ == spec_archive_dir_for_file(
                    spec_parent_or_self(file@),
                ),
                ArchiveError::Rename { from, to, .. } => from@ == file@ && to@
                    == spec_file_archive_dest(file@),
                ArchiveError::Append { .. } => false,
            },
        },
{
    let parent = parent_of_target(file);
    let arch_dir = archive_dir_for_file_pure(parent.as_str());
    match ops.create_dir_all(arch_dir.as_str()) {
        Err(cause) => {
            return Err(ArchiveError::CreateDir { dir: arch_dir, cause });
        },
        Ok(_) => {},
    }
    let base = base_name_of(file);
    let dest = path_join(arch_dir.as_str(), base.as_str());
    match ops.rename(file, dest.as_str()) {
        Err(cause) => Err(
            ArchiveError::Rename { from: String::from_str(file), to: dest, cause },
        ),
        Ok(_) => Ok(dest),
    }
}

/// Move a directory into the archive folder beside its parent, under
/// its original base name, through the given file operations. On
/// success the destination path is returned; an error names the step
/// that failed and the exact paths involved.
pub fn archive_move_dir_with<F: FileOps>(dir: &str, ops: &F) -> (r: Result<String, ArchiveError>)
    requires
        valid_target(dir@),
    ensures
        ops.infallible() ==> r is Ok,
        match r {
            Ok(dest) => dest@ == spec_dir_archive_dest(dir@),
            Err(e) => match e {
                ArchiveError::CreateDir { dir: d, .. } => d@ == spec_archive_dir_for_dir(
                    spec_parent_or_self(dir@),
                ),
                ArchiveError::Rename { from, to, .. } => from@ == dir@ && to@
                    == spec_dir_archive_dest(dir@),
                ArchiveError::Append { .. } => false,
            },
        },
{
    let parent = parent_of_target(dir);
    let arch_dir = archive_dir_for_dir_pure(parent.as_str());
    match ops.create_dir_all(arch_dir.as_str()) {
        Err(cause) => {
            return Err(ArchiveError::CreateDir { dir: arch_dir, cause });
        },
        Ok(_) => {},
    }
    let base = base_name_of(dir);
    let dest = path_join(arch_dir.as_str(), base.as_str());
    match ops.rename(dir, dest.as_str()) {
        Err(cause) => Err(ArchiveError::Rename { from: String::from_str(dir), to: dest, cause }),
        Ok(_) => Ok(dest),
    }
}

/// Append bytes that the caller read from standard input to the
/// archive file of the given target: the same destination the
/// move-file case would use, so repeated runs accumulate content in
/// one file. On success the destination path is returned.
pub fn archive_append_stdin_with<F: FileOps>(file: &str, data: &[u8], ops: &F) -> (r: Result<
    String,
    ArchiveError,
>)
    requires
        valid_target(file@),
    ensures
        ops.infallible() ==> r is Ok,
        match r {
            Ok(dest) => dest@ == spec_file_archive_dest(file@),
            Err(e) => match e {
                ArchiveError::CreateDir { dir, .. } => dir@ == spec_archive_dir_for_file(
                    spec_parent_or_self(file@),
                ),
                ArchiveError::Append { dest, .. } => dest@ == spec_file_archive_dest(file@),
                ArchiveError::Rename { .. } => false,
            },
        },
{
    let parent = parent_of_target(file);
    let arch_dir = archive_dir_for_file_pure(parent.as_str());
    match ops.create_dir_all(arch_dir.as_str()) {
        Err(cause) => {
            return Err(ArchiveError::CreateDir { dir: arch_dir, cause });
        },
        Ok(_) => {},
    }
    let base = base_name_of(file);
    let dest = path_join(arch_dir.as_str(), base.as_str());
    match ops.append(dest.as_str(), data) {
        Err(cause) => Err(ArchiveError::Append { dest, cause }),
        Ok(_) => Ok(dest),
    }
}

/// Repeated appends against one target land in one file: the
/// destination is a function of the target path alone, never of the
/// bytes being appended.
pub proof fn lemma_append_dest_stable(file: Seq<char>, dest1: Seq<char>, dest2: Seq<char>)
    requires
        dest1 == spec_file_archive_dest(file),
        dest2 == spec_file_archive_dest(file),
    ensures
        dest1 == dest2,
{
}

} // verus!
