use rclrs::error::{to_result, ClientErrorCode, RclReturnCode, ServiceErrorCode};
use rclrs::future::RclFuture;
use rclrs::topic::{first_nul, topic_c_string};

#[test]
fn success_code_is_ok() {
    assert_eq!(to_result(0), Ok(()));
}

#[test]
fn each_named_code_has_its_error() {
    assert_eq!(to_result(1), Err(RclReturnCode::Error));
    assert_eq!(to_result(2), Err(RclReturnCode::Timeout));
    assert_eq!(to_result(3), Err(RclReturnCode::Unsupported));
    assert_eq!(to_result(10), Err(RclReturnCode::BadAlloc));
    assert_eq!(to_result(11), Err(RclReturnCode::InvalidArgument));
    assert_eq!(to_result(500), Err(RclReturnCode::ClientError(ClientErrorCode::ClientInvalid)));
    assert_eq!(to_result(501), Err(RclReturnCode::ClientError(ClientErrorCode::ClientTakeFailed)));
    assert_eq!(to_result(600), Err(RclReturnCode::ServiceError(ServiceErrorCode::ServiceInvalid)));
    assert_eq!(to_result(601), Err(RclReturnCode::ServiceError(ServiceErrorCode::ServiceTakeFailed)));
}

#[test]
fn other_codes_are_kept_as_unknown() {
    assert_eq!(to_result(4), Err(RclReturnCode::Unknown(4)));
    assert_eq!(to_result(-1), Err(RclReturnCode::Unknown(-1)));
    assert_eq!(to_result(502), Err(RclReturnCode::Unknown(502)));
    assert_eq!(to_result(i32::MAX), Err(RclReturnCode::Unknown(i32::MAX)));
    assert_eq!(to_result(i32::MIN), Err(RclReturnCode::Unknown(i32::MIN)));
}

#[test]
fn new_future_is_unset() {
    let future: RclFuture<i64> = RclFuture::new();
    assert!(!future.is_set());
    assert_eq!(future.value(), None);
    assert_eq!(future.into_value(), None);
}

#[test]
fn future_holds_what_was_set() {
    let mut future = RclFuture::new();
    future.set_value(42);
    assert!(future.is_set());
    assert_eq!(future.value(), Some(&42));
    assert_eq!(future.value(), Some(&42));
    assert_eq!(future.into_value(), Some(42));
}

#[test]
fn future_keeps_its_first_value() {
    let mut future = RclFuture::new();
    future.set_value(String::from("first"));
    future.set_value(String::from("second"));
    assert_eq!(future.value(), Some(&String::from("first")));
}

#[test]
fn topic_gets_a_terminating_zero() {
    assert_eq!(topic_c_string("add_two_ints"), b"add_two_ints\0".to_vec());
    assert_eq!(topic_c_string(""), vec![0u8]);
    assert_eq!(topic_c_string("/ns/größe"), "/ns/größe\0".as_bytes().to_vec());
}

#[test]
fn first_nul_finds_the_first_zero_byte() {
    assert_eq!(first_nul("add_two_ints"), None);
    assert_eq!(first_nul(""), None);
    assert_eq!(first_nul("\0"), Some(0));
    assert_eq!(first_nul("foo\0bar"), Some(3));
    assert_eq!(first_nul("foo\0bar\0"), Some(3));
    assert_eq!(first_nul("foo bar\0"), Some(7));
    assert_eq!(first_nul("ä\0"), Some(2));
}
