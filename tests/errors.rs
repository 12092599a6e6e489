use oswrap::error::{check_result, check_zero, EEXIST, EINTR, EINVAL, ENOENT, ETIMEDOUT};
use oswrap::{ErrorKind, OsError};

#[test]
fn codes_match_kernel_values() {
    assert_eq!(EINTR, libc::EINTR);
    assert_eq!(ENOENT, libc::ENOENT);
    assert_eq!(EEXIST, libc::EEXIST);
    assert_eq!(EINVAL, libc::EINVAL);
    assert_eq!(ETIMEDOUT, libc::ETIMEDOUT);
}

#[test]
fn each_kind_decodes() {
    assert_eq!(OsError::from_code(libc::ETIMEDOUT).kind(), ErrorKind::TimedOut);
    assert_eq!(OsError::from_code(libc::EINTR).kind(), ErrorKind::Interrupted);
    assert_eq!(OsError::from_code(libc::EINVAL).kind(), ErrorKind::InvalidArgument);
    assert_eq!(OsError::from_code(libc::ENOENT).kind(), ErrorKind::NotFound);
    assert_eq!(OsError::from_code(libc::EEXIST).kind(), ErrorKind::AlreadyExists);
    assert_eq!(OsError::from_code(libc::EBADF).kind(), ErrorKind::Other);
    assert_eq!(OsError::from_code(0).kind(), ErrorKind::Other);
    assert_eq!(OsError::from_code(libc::EBADF).raw_os_error(), 9);
}

#[test]
fn check_result_splits_on_sign() {
    assert_eq!(check_result(0, 0), Ok(0));
    assert_eq!(check_result(42, 0), Ok(42));
    assert_eq!(check_result(-1, libc::EBADF), Err(OsError { code: libc::EBADF }));
    assert_eq!(check_result(i32::MIN, 1), Err(OsError { code: 1 }));
}

#[test]
fn check_zero_accepts_only_zero() {
    assert_eq!(check_zero(0, 0), Ok(()));
    assert_eq!(check_zero(-1, libc::EPERM), Err(OsError { code: libc::EPERM }));
    assert_eq!(check_zero(1, libc::EPERM), Err(OsError { code: libc::EPERM }));
}
