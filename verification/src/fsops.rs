//! The file-operations capability: the directory-creation, rename and
//! append effects that archiving needs, behind an interface, so that a
//! no-op stand-in can take the filesystem's place under test.

use vstd::prelude::*;

verus! {

/// What a failed filesystem call reports: the underlying cause's
/// text, supplied by the implementation.
#[derive(Debug)]
pub struct FsError {
    pub message: String,
}

/// The three filesystem effects archiving needs. Implementations do
/// real I/O or none at all. `infallible` marks an implementation
/// whose calls all succeed; that is the one thing promised — an
/// infallible implementation returns `Ok` from every method, and of
/// any other implementation's outcome nothing is said.
pub trait FileOps {
    /// Whether every call of this implementation succeeds.
    spec fn infallible(&self) -> bool;

    /// Create a directory together with any missing ancestors.
    fn create_dir_all(&self, path: &str) -> (r: Result<(), FsError>)
        ensures
            self.infallible() ==> r is Ok,
    ;

    /// Move an entry from one path to another.
    fn rename(&self, from: &str, to: &str) -> (r: Result<(), FsError>)
        ensures
            self.infallible() ==> r is Ok,
    ;

    /// Append bytes at the tail of a file, creating it when absent.
    fn append(&self, path: &str, data: &[u8]) -> (r: Result<(), FsError>)
        ensures
            self.infallible() ==> r is Ok,
    ;
}

/// A stand-in that accepts every call and discards the I/O, for
/// exercising the orchestration without touching a filesystem.
pub struct MockFileOps;

impl FileOps for MockFileOps {
    /// Every mock call succeeds.
    open spec fn infallible(&self) -> bool {
        true
    }

    fn create_dir_all(&self, path: &str) -> (r: Result<(), FsError>)
        ensures
            r is Ok,
    {
        Ok(())
    }

    fn rename(&self, from: &str, to: &str) -> (r: Result<(), FsError>)
        ensures
            r is Ok,
    {
        Ok(())
    }

    fn append(&self, path: &str, data: &[u8]) -> (r: Result<(), FsError>)
        ensures
            r is Ok,
    {
        Ok(())
    }
}

} // verus!
