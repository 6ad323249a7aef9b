use driver_update::abi::{ErrorCode, QueryResult, ABI_VERSION, ABI_VERSION_MAJOR};
use driver_update::abi::{ABI_VERSION_MINOR, ENTRY_SYMBOL, MIN_DRIVER_BUILD_NUMBER};
use driver_update::driver::{
    impl_create_session, impl_execute_unpaged, impl_get_driver_version, impl_prepare,
    impl_query_unpaged, scylla_driver_init,
};

fn assert_plain_success(result: &QueryResult) {
    assert_eq!(result.error_code, ErrorCode::Success);
    assert_eq!(result.data, None);
    assert_eq!(result.data_len, 0);
    assert_eq!(result.error_message, None);
    assert_eq!(result.error_message_len, 0);
}

#[test]
fn interface_constants() {
    assert_eq!(ABI_VERSION_MAJOR, 1);
    assert_eq!(ABI_VERSION_MINOR, 0);
    assert_eq!(ABI_VERSION, 1000);
    assert_eq!(MIN_DRIVER_BUILD_NUMBER, 0);
    assert_eq!(ENTRY_SYMBOL, "scylla_driver_init");
}

#[test]
fn error_codes_have_their_numbers() {
    let codes = [
        ErrorCode::Success,
        ErrorCode::InvalidConfig,
        ErrorCode::ConnectionFailed,
        ErrorCode::QueryFailed,
        ErrorCode::Timeout,
        ErrorCode::InternalError,
        ErrorCode::InvalidArgument,
    ];
    for (i, code) in codes.iter().enumerate() {
        assert_eq!(code.code() as usize, i);
    }
}

#[test]
fn driver_table() {
    let vtable = scylla_driver_init(72);
    assert_eq!(vtable.abi_version, 1000);
    assert_eq!(vtable.vtable_size, 72);
    assert_eq!(vtable.build_number, 1);
}

#[test]
fn driver_operations_succeed() {
    assert_plain_success(&impl_query_unpaged());
    assert_plain_success(&impl_prepare());
    assert_plain_success(&impl_execute_unpaged());
}

#[test]
fn create_session_hands_back_a_session() {
    let result = impl_create_session();
    assert_eq!(result.error_code, ErrorCode::Success);
    assert_eq!(result.data, Some(Vec::new()));
    assert_eq!(result.data_len, 0);
    assert_eq!(result.error_message, None);
    assert_eq!(result.error_message_len, 0);
}

#[test]
fn driver_reports_its_version() {
    assert_eq!(impl_get_driver_version(), &b"0.2.0-updated"[..]);
}
