use named_semaphore::error::{sentinel_result, status_result, SemError};

#[test]
fn zero_status_is_success() {
    assert_eq!(status_result(0, 4), Ok(()));
}

#[test]
fn nonzero_status_carries_the_code() {
    assert_eq!(status_result(-1, 4), Err(SemError::Os(4)));
    assert_eq!(status_result(1, 75), Err(SemError::Os(75)));
}

#[test]
fn sentinel_means_failure() {
    assert_eq!(sentinel_result(true, 2), Err(SemError::Os(2)));
    assert_eq!(sentinel_result(false, 2), Ok(()));
}

#[test]
fn raw_os_error_of_each_variant() {
    assert_eq!(SemError::Os(13).raw_os_error(), Some(13));
    assert_eq!(SemError::NameEncoding.raw_os_error(), None);
}
