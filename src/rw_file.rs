//! A file path together with the reader/writer admission state that guards it.
use crate::state::LockState;
use std::path::PathBuf;
use vstd::prelude::*;
use vstd::rwlock::{RwLock, RwLockPredicate};

verus! {

/// Declares std's `PathBuf` so that the lock can carry its path; nothing is
/// assumed of the value, which is only stored and handed back.
#[verifier::external_type_specification]
#[verifier::external_body]
pub struct ExPathBuf(PathBuf);

/// The invariant of every state that the lock holds: a writer excludes every
/// reader.
pub struct Exclusive;

impl RwLockPredicate<LockState> for Exclusive {
    open spec fn inv(self, s: LockState) -> bool {
        s.wf()
    }
}

/// A file shared by many threads, which may be read by many of them at once or
/// written by exactly one of them, never both.
///
/// The admission state sits behind a single lock. Access is handed out as
/// [`ReadAccess`] and [`WriteAccess`] tokens; each token is given back by its
/// `release` method, exactly once, since `release` consumes it.
pub struct RWFile {
    path: PathBuf,
    meta: RwLock<LockState, Exclusive>,
}

/// The right of one reader to read the file, counted in the admission state
/// until it is released.
pub struct ReadAccess<'a> {
    file: &'a RWFile,
    admitted: Ghost<LockState>,
}

/// The right of the one writer to write the file, recorded in the admission
/// state until it is released.
pub struct WriteAccess<'a> {
    file: &'a RWFile,
    admitted: Ghost<LockState>,
}

impl RWFile {
    /// The path of the file.
    pub closed spec fn path_spec(&self) -> PathBuf {
        self.path
    }

    /// Creates the lock for the file at `path`, with no reader and no writer.
    /// The file is neither opened nor checked here.
    pub fn new(path: PathBuf) -> (r: RWFile)
        ensures
            r.path_spec() == path,
    {
        let meta = RwLock::new(LockState::idle(), Ghost(Exclusive));
        RWFile { path, meta }
    }

    /// The path of the file, for opening a handle on it.
    pub fn path(&self) -> (p: &PathBuf)
        ensures
            *p == self.path_spec(),
    {
        &self.path
    }

    /// The admission state as it stands at the moment of the call; whatever
    /// the moment, a writer never shares access with a reader.
    pub fn snapshot(&self) -> (s: LockState)
        ensures
            s.wf(),
    {
        let handle = self.meta.acquire_read();
        let s = *handle.borrow();
        handle.release_read();
        s
    }

    /// One attempt to let a reader in: under the lock, the reader is counted
    /// if no writer holds access. `None` when the attempt found a writer (or a
    /// count with no room left); the caller may try again.
    pub fn try_read(&self) -> (r: Option<ReadAccess<'_>>)
        ensures
            r matches Some(a) ==> a.file() == self && exists|before: LockState|
                #![trigger before.with_reader()]
                before.wf() && before.admits_reader() && a.admitted_into() == before.with_reader(),
    {
        let (mut s, handle) = self.meta.acquire_write();
        let ghost before = s;
        let granted = s.try_admit_reader();
        assert(granted ==> s == before.with_reader());
        let admitted = Ghost(s);
        handle.release_write(s);
        if granted {
            Some(ReadAccess { file: self, admitted })
        } else {
            None
        }
    }

    /// One attempt to let a writer in: under the lock, the writer is recorded
    /// if nobody holds access. `None` when the attempt found a reader or a
    /// writer; the caller may try again.
    pub fn try_write(&self) -> (r: Option<WriteAccess<'_>>)
        ensures
            r matches Some(a) ==> a.file() == self && a.admitted_into() == (LockState {
                reader_count: 0,
                writing: true,
            }),
    {
        let (mut s, handle) = self.meta.acquire_write();
        let granted = s.try_admit_writer();
        let admitted = Ghost(s);
        handle.release_write(s);
        if granted {
            Some(WriteAccess { file: self, admitted })
        } else {
            None
        }
    }
}

impl<'a> ReadAccess<'a> {
    /// The file this access was granted on.
    pub closed spec fn file(&self) -> &'a RWFile {
        self.file
    }

    /// The admission state just after this reader was let in.
    pub closed spec fn admitted_into(&self) -> LockState {
        self.admitted@
    }

    /// The file this access was granted on.
    pub fn rw_file(&self) -> (f: &'a RWFile)
        ensures
            f == self.file(),
    {
        self.file
    }

    /// Gives the access back: the reader is no longer counted.
    pub fn release(self) {
        let (mut s, handle) = self.file.meta.acquire_write();
        // This token's reader is counted until now; the test only keeps the
        // count from going below zero should that ever not hold.
        if s.reader_count > 0 {
            s.release_reader();
        }
        handle.release_write(s);
    }
}

impl<'a> WriteAccess<'a> {
    /// The file this access was granted on.
    pub closed spec fn file(&self) -> &'a RWFile {
        self.file
    }

    /// The admission state just after this writer was let in.
    pub closed spec fn admitted_into(&self) -> LockState {
        self.admitted@
    }

    /// The file this access was granted on.
    pub fn rw_file(&self) -> (f: &'a RWFile)
        ensures
            f == self.file(),
    {
        self.file
    }

    /// Gives the access back: the writer is no longer recorded.
    pub fn release(self) {
        let (mut s, handle) = self.file.meta.acquire_write();
        // This token's writer is recorded until now.
        if s.writing {
            s.release_writer();
        }
        handle.release_write(s);
    }
}

} // verus!
