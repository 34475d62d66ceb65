use rwfile::{LockState, RWFile};
use std::path::PathBuf;

#[test]
fn new_keeps_path_and_starts_idle() {
    let f = RWFile::new(PathBuf::from("/tmp/shared.dat"));
    assert_eq!(f.path(), &PathBuf::from("/tmp/shared.dat"));
    assert_eq!(f.snapshot(), LockState::idle());
}

#[test]
fn many_readers_at_once() {
    let f = RWFile::new(PathBuf::from("a"));
    let r1 = f.try_read().expect("first reader");
    let r2 = f.try_read().expect("second reader");
    assert_eq!(f.snapshot(), LockState { reader_count: 2, writing: false });
    assert!(f.try_write().is_none());
    assert!(std::ptr::eq(r1.rw_file(), &f));
    r1.release();
    assert_eq!(f.snapshot(), LockState { reader_count: 1, writing: false });
    assert!(f.try_write().is_none());
    r2.release();
    assert_eq!(f.snapshot(), LockState::idle());
}

#[test]
fn one_writer_excludes_all() {
    let f = RWFile::new(PathBuf::from("b"));
    let w = f.try_write().expect("writer");
    assert_eq!(f.snapshot(), LockState { reader_count: 0, writing: true });
    assert!(f.try_read().is_none());
    assert!(f.try_write().is_none());
    assert_eq!(f.snapshot(), LockState { reader_count: 0, writing: true });
    assert!(std::ptr::eq(w.rw_file(), &f));
    w.release();
    assert_eq!(f.snapshot(), LockState::idle());
    let r = f.try_read().expect("reader after writer");
    r.release();
    assert_eq!(f.snapshot(), LockState::idle());
}

#[test]
fn failed_open_rolls_back_reservation() {
    let f = RWFile::new(PathBuf::from("c"));
    let held = f.try_read().expect("reader");
    let before = f.snapshot();
    let reserved = f.try_read().expect("second reader");
    assert_eq!(f.snapshot().reader_count, before.reader_count + 1);
    // the handle could not be opened: the reservation is given back at once
    reserved.release();
    assert_eq!(f.snapshot(), before);
    held.release();

    let w = f.try_write().expect("writer");
    w.release();
    assert_eq!(f.snapshot(), LockState::idle());
}
