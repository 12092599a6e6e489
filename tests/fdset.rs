use oswrap::fdset::FD_SETSIZE;
use oswrap::{select_outcome, timeval_parts, FdSet, OsError};

#[test]
fn new_set_is_empty() {
    let s = FdSet::new();
    for fd in 0..FD_SETSIZE as i32 {
        assert!(!s.contains(fd));
    }
    assert!(!FdSet::default().contains(0));
    assert!(!s.contains(-1));
    assert!(!s.contains(1024));
}

#[test]
fn insert_adds_only_that_descriptor() {
    let mut s = FdSet::new();
    s.insert(0);
    s.insert(63);
    s.insert(64);
    s.insert(1023);
    for fd in 0..FD_SETSIZE as i32 {
        assert_eq!(s.contains(fd), fd == 0 || fd == 63 || fd == 64 || fd == 1023);
    }
    s.insert(63);
    assert!(s.contains(63));
    assert!(!s.contains(62));
}

#[test]
fn set_size_matches_kernel_value() {
    assert_eq!(FD_SETSIZE, libc::FD_SETSIZE);
}

#[test]
fn timeval_parts_split() {
    assert_eq!(timeval_parts(3, 250_000), Some((3, 250_000)));
    assert_eq!(timeval_parts(0, 0), Some((0, 0)));
    assert_eq!(timeval_parts(i64::MAX as u64, 999_999), Some((i64::MAX, 999_999)));
    assert_eq!(timeval_parts(u64::MAX, 0), None);
}

#[test]
fn select_outcome_values() {
    assert_eq!(select_outcome(0, 0), Ok(None));
    assert_eq!(select_outcome(2, 0), Ok(Some(())));
    assert_eq!(select_outcome(-1, libc::EINTR), Err(OsError { code: libc::EINTR }));
}
