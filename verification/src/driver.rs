//! The driver that this project builds: what its entry point and its operations
//! return.

use vstd::prelude::*;
use vstd::utf8::encode_utf8;

use crate::abi::{DriverVtable, ErrorCode, QueryResult, ABI_VERSION, MIN_DRIVER_BUILD_NUMBER};
use crate::loader::vtable_refusal;

verus! {

/// Build number of this driver.
pub const BUILD_NUMBER: u64 = 1;

/// Version of this driver.
pub const DRIVER_VERSION: &'static str = "0.2.0-updated";

/// The function table of this driver; `vtable_size` is the size in bytes of the
/// table as it lies in memory.
pub fn scylla_driver_init(vtable_size: usize) -> (vtable: DriverVtable)
    ensures
        vtable == (DriverVtable { abi_version: ABI_VERSION, vtable_size, build_number: BUILD_NUMBER }),
{
    DriverVtable { abi_version: ABI_VERSION, vtable_size, build_number: BUILD_NUMBER }
}

/// An operation succeeded, and `data` is what it hands back.
pub open spec fn is_success(result: QueryResult, data: Option<Seq<u8>>) -> bool {
    &&& result.well_formed()
    &&& result.error_code == ErrorCode::Success
    &&& match result.data {
        Some(bytes) => data == Some(bytes@),
        None => data is None,
    }
    &&& result.error_message is None
}

/// Success with nothing handed back.
fn success() -> (result: QueryResult)
    ensures
        is_success(result, None),
        result.error_code == ErrorCode::Success,
        result.data is None && result.data_len == 0,
        result.error_message is None && result.error_message_len == 0,
{
    QueryResult {
        error_code: ErrorCode::Success,
        data: None,
        data_len: 0,
        error_message: None,
        error_message_len: 0,
    }
}

/// What the callback of `create_session` receives, whatever the configuration:
/// success, with a dummy session handle. The handle is an
/// [`OpaqueSession`](crate::abi::OpaqueSession), so there is a pointer to it and
/// no byte behind the pointer.
pub fn impl_create_session() -> (result: QueryResult)
    ensures
        is_success(result, Some(Seq::<u8>::empty())),
        result.error_code == ErrorCode::Success,
        result.data matches Some(handle) && handle@.len() == 0,
        result.data_len == 0,
        result.error_message is None && result.error_message_len == 0,
{
    let handle: Vec<u8> = Vec::new();
    QueryResult {
        error_code: ErrorCode::Success,
        data: Some(handle),
        data_len: 0,
        error_message: None,
        error_message_len: 0,
    }
}

/// What the callback of `query_unpaged` receives, whatever the query: success
/// without data.
pub fn impl_query_unpaged() -> (result: QueryResult)
    ensures
        is_success(result, None),
        result.error_code == ErrorCode::Success,
        result.data is None && result.data_len == 0,
        result.error_message is None && result.error_message_len == 0,
{
    success()
}

/// What the callback of `prepare` receives, whatever the statement: success
/// without data.
pub fn impl_prepare() -> (result: QueryResult)
    ensures
        is_success(result, None),
        result.error_code == ErrorCode::Success,
        result.data is None && result.data_len == 0,
        result.error_message is None && result.error_message_len == 0,
{
    success()
}

/// What the callback of `execute_unpaged` receives, whatever the statement and
/// its values: success without data.
pub fn impl_execute_unpaged() -> (result: QueryResult)
    ensures
        is_success(result, None),
        result.error_code == ErrorCode::Success,
        result.data is None && result.data_len == 0,
        result.error_message is None && result.error_message_len == 0,
{
    success()
}

/// The version string of this driver, without the terminating zero byte.
pub fn impl_get_driver_version() -> (version: &'static [u8])
    ensures
        version@ == encode_utf8(DRIVER_VERSION@),
{
    DRIVER_VERSION.as_bytes()
}

/// The host accepts the function table of this driver.
pub proof fn law_host_accepts_this_driver(vtable_size: usize)
    ensures
        vtable_refusal(
            DriverVtable { abi_version: ABI_VERSION, vtable_size, build_number: BUILD_NUMBER },
            MIN_DRIVER_BUILD_NUMBER,
        ) is None,
{
}

/// A result is a success with these data exactly when its code is that of
/// success, it holds the data with their length, and it holds no message.
pub proof fn law_success_holds_the_data(result: QueryResult, data: Seq<u8>)
    ensures
        is_success(result, None) <==> {
            &&& result.error_code == ErrorCode::Success
            &&& result.data is None
            &&& result.data_len == 0
            &&& result.error_message is None
            &&& result.error_message_len == 0
        },
        is_success(result, Some(data)) <==> {
            &&& result.error_code == ErrorCode::Success
            &&& result.data is Some
            &&& result.data->0@ == data
            &&& result.data_len == data.len()
            &&& result.error_message is None
            &&& result.error_message_len == 0
        },
{
}

} // verus!
