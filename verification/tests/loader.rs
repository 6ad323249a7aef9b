use driver_update::abi::{DriverVtable, ABI_VERSION, MIN_DRIVER_BUILD_NUMBER};
use driver_update::driver::{impl_get_driver_version, scylla_driver_init};
use driver_update::loader::{check_vtable, LoadAction, LoadEvent, LoadedDriver};
use driver_update::DriverUpdateStatus;

const PATH: &[u8] = b"/drivers/libdriver.so";

/// Loads a driver from `from`, whose library opens or fails to, whose entry point
/// is found or not, which returns `vtable` and reports `version`.
fn load(
    from: &[u8],
    opened: Result<(), String>,
    resolved: Result<(), String>,
    vtable: Option<DriverVtable>,
    version: Option<&[u8]>,
) -> (Result<(LoadedDriver, String), DriverUpdateStatus>, usize) {
    let mut load = LoadedDriver::load(from);
    let mut actions = 0;
    loop {
        let event = match load.action() {
            LoadAction::Open { path } => {
                assert_eq!(path, from.to_vec());
                LoadEvent::Opened { result: opened.clone() }
            }
            LoadAction::Resolve { symbol } => {
                assert_eq!(symbol, "scylla_driver_init");
                LoadEvent::Resolved { result: resolved.clone() }
            }
            LoadAction::Initialize => LoadEvent::Initialized { vtable },
            LoadAction::Describe => LoadEvent::Described { version: version.map(|v| v.to_vec()) },
            LoadAction::Stop => break,
        };
        assert!(load.awaits(&event));
        load = load.advance(event);
        actions += 1;
    }
    (load.finish().unwrap(), actions)
}

fn load_this_driver() -> Result<(LoadedDriver, String), DriverUpdateStatus> {
    load(PATH, Ok(()), Ok(()), Some(scylla_driver_init(72)), Some(impl_get_driver_version())).0
}

#[test]
fn test_load_driver_and_get_version() {
    let (_driver, version) = load_this_driver().expect("Failed to load driver");
    assert_eq!(version, "0.2.0-updated");
}

#[test]
fn test_load_driver_abi_version() {
    let (driver, _version) = load_this_driver().expect("Failed to load driver");

    let vtable = driver.vtable();
    assert_eq!(vtable.abi_version, ABI_VERSION);
    assert!(vtable.vtable_size > 0);
    assert!(vtable.build_number >= MIN_DRIVER_BUILD_NUMBER);
}

#[test]
fn test_load_nonexistent_library() {
    let error = "/nonexistent/libfoo.so: cannot open shared object file".to_string();
    let (result, actions) = load(b"/nonexistent/libfoo.so", Err(error), Ok(()), None, None);
    assert_eq!(actions, 1);
    assert!(result.is_err());
    match result.map(|_| ()).unwrap_err() {
        DriverUpdateStatus::FallbackDownloadFailed { reason } => {
            assert!(reason.contains("dlopen"));
            assert_eq!(
                reason,
                "dlopen failed: /nonexistent/libfoo.so: cannot open shared object file"
            );
        }
        other => panic!("Expected FallbackDownloadFailed, got {:?}", other),
    }
}

#[test]
fn load_without_entry_point() {
    let (result, actions) = load(PATH, Ok(()), Err("undefined symbol".to_string()), None, None);
    assert_eq!(actions, 2);
    assert_eq!(
        result.map(|_| ()).unwrap_err(),
        DriverUpdateStatus::FallbackDownloadFailed {
            reason: "Symbol lookup failed: undefined symbol".to_string()
        }
    );
}

#[test]
fn load_with_null_table() {
    let (result, actions) = load(PATH, Ok(()), Ok(()), None, None);
    assert_eq!(actions, 3);
    assert_eq!(
        result.map(|_| ()).unwrap_err(),
        DriverUpdateStatus::FallbackDownloadFailed {
            reason: "init returned null".to_string()
        }
    );
}

#[test]
fn load_with_other_major_version() {
    for abi_version in [0, 999, 2000, u32::MAX] {
        let vtable = DriverVtable { abi_version, vtable_size: 72, build_number: 7 };
        let (result, actions) = load(PATH, Ok(()), Ok(()), Some(vtable), Some(b"1.0"));
        assert_eq!(actions, 3);
        assert_eq!(
            result.map(|_| ()).unwrap_err(),
            DriverUpdateStatus::FallbackAbiMismatch { server_abi: abi_version, client_abi: 1000 }
        );
    }
}

#[test]
fn load_with_any_minor_version() {
    for abi_version in [1000, 1001, 1999] {
        let vtable = DriverVtable { abi_version, vtable_size: 72, build_number: 0 };
        let (result, actions) = load(PATH, Ok(()), Ok(()), Some(vtable), Some(b"1.0"));
        assert_eq!(actions, 4);
        let (driver, version) = result.unwrap();
        assert_eq!(driver.vtable(), vtable);
        assert_eq!(version, "1.0");
    }
}

#[test]
fn build_number_below_minimum() {
    let vtable = DriverVtable { abi_version: 1000, vtable_size: 72, build_number: 41 };
    assert_eq!(check_vtable(&vtable, 41), Ok(()));
    assert_eq!(
        check_vtable(&vtable, 1205),
        Err(DriverUpdateStatus::FallbackDownloadFailed {
            reason: "Build number 41 below minimum 1205".to_string()
        })
    );
}

#[test]
fn interface_is_checked_before_build_number() {
    let vtable = DriverVtable { abi_version: 2000, vtable_size: 72, build_number: 0 };
    assert_eq!(
        check_vtable(&vtable, 5),
        Err(DriverUpdateStatus::FallbackAbiMismatch { server_abi: 2000, client_abi: 1000 })
    );
}

#[test]
fn version_of_a_driver() {
    assert_eq!(LoadedDriver::version(&None), "unknown");
    assert_eq!(LoadedDriver::version(&Some(b"0.3.1".to_vec())), "0.3.1");
    assert_eq!(LoadedDriver::version(&Some(Vec::new())), "");
    assert_eq!(LoadedDriver::version(&Some(vec![0x61, 0xff, 0x62])), "a\u{fffd}b");
}

#[test]
fn load_that_is_not_over() {
    let load = LoadedDriver::load(b"x.so");
    assert!(!load.awaits(&LoadEvent::Initialized { vtable: None }));
    assert!(load.awaits(&LoadEvent::Opened { result: Ok(()) }));
    assert!(load.finish().is_none());
}

#[test]
fn load_that_is_over_awaits_nothing() {
    let events = || {
        [
            LoadEvent::Opened { result: Ok(()) },
            LoadEvent::Resolved { result: Ok(()) },
            LoadEvent::Initialized { vtable: None },
            LoadEvent::Described { version: None },
        ]
    };
    let failed = LoadedDriver::load(PATH).advance(LoadEvent::Opened { result: Err(String::new()) });
    assert!(matches!(failed.action(), LoadAction::Stop));
    assert!(events().iter().all(|event| !failed.awaits(event)));

    let mut loaded = LoadedDriver::load(PATH);
    loaded = loaded.advance(LoadEvent::Opened { result: Ok(()) });
    loaded = loaded.advance(LoadEvent::Resolved { result: Ok(()) });
    loaded = loaded.advance(LoadEvent::Initialized { vtable: Some(scylla_driver_init(72)) });
    loaded = loaded.advance(LoadEvent::Described { version: None });
    assert!(matches!(loaded.action(), LoadAction::Stop));
    assert!(events().iter().all(|event| !loaded.awaits(event)));
    assert_eq!(loaded.finish().unwrap().unwrap().1, "unknown");
}

#[test]
fn host_accepts_this_driver() {
    for vtable_size in [0, 72, usize::MAX] {
        assert_eq!(check_vtable(&scylla_driver_init(vtable_size), MIN_DRIVER_BUILD_NUMBER), Ok(()));
    }
}

#[test]
fn driver_in_words() {
    let vtable = DriverVtable { abi_version: 1002, vtable_size: 72, build_number: 305 };
    let (driver, _version) = load(PATH, Ok(()), Ok(()), Some(vtable), None).0.ok().unwrap();
    assert_eq!(driver.describe(), "LoadedDriver { abi_version: 1002, build_number: 305 }");
}

#[test]
fn other_events_change_nothing() {
    let load = LoadedDriver::load(PATH).advance(LoadEvent::Described { version: None });
    assert!(matches!(load.action(), LoadAction::Open { .. }));
    let failed = load.advance(LoadEvent::Opened { result: Err("no".to_string()) });
    let failed = failed.advance(LoadEvent::Opened { result: Ok(()) });
    assert_eq!(
        failed.finish().unwrap().map(|_| ()),
        Err(DriverUpdateStatus::FallbackDownloadFailed { reason: "dlopen failed: no".to_string() })
    );
}
