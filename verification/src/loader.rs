//! Loading of a driver library.
//!
//! Opening a shared library, looking up its entry point and calling into it is
//! work for the host program. What to do next, what to make of each outcome, and
//! which driver to refuse is decided here: [`LoadedDriver::load`] starts a
//! [`DriverLoad`], the host performs the action it asks for and hands back what
//! came of it, until there is nothing left to do.

use vstd::prelude::*;
use vstd::slice::slice_to_vec;
use vstd::utf8::{decode_utf8, valid_utf8};

use crate::abi::{
    DriverVtable, ABI_VERSION, ABI_VERSION_MAJOR, ENTRY_SYMBOL, MIN_DRIVER_BUILD_NUMBER,
};
use crate::text::{
    decimal, decimal_text, join_text, optional_bytes, text_of_bytes, utf8_lossy,
};
use crate::update::{DriverUpdateStatus, StatusView};

verus! {

/// The status with which a function table is refused by a host that asks for at
/// least `minimum_build`; `None` where it is accepted.
pub open spec fn vtable_refusal(vtable: DriverVtable, minimum_build: u64) -> Option<StatusView> {
    if vtable.abi_version / 1000 != ABI_VERSION_MAJOR {
        Some(
            StatusView::FallbackAbiMismatch {
                server_abi: vtable.abi_version,
                client_abi: ABI_VERSION,
            },
        )
    } else if vtable.build_number < minimum_build {
        Some(
            StatusView::FallbackDownloadFailed {
                reason: "Build number "@ + decimal_text(vtable.build_number as nat)
                    + " below minimum "@ + decimal_text(minimum_build as nat),
            },
        )
    } else {
        None
    }
}

/// Checks the version of the interface first, then the build number.
pub fn check_vtable(vtable: &DriverVtable, minimum_build: u64) -> (result: Result<
    (),
    DriverUpdateStatus,
>)
    ensures
        match result {
            Ok(_) => vtable_refusal(*vtable, minimum_build) is None,
            Err(status) => vtable_refusal(*vtable, minimum_build) == Some(status@),
        },
        result is Ok <==> vtable.abi_version / 1000 == ABI_VERSION_MAJOR && vtable.build_number
            >= minimum_build,
        vtable.abi_version / 1000 != ABI_VERSION_MAJOR ==> (result matches Err(
            DriverUpdateStatus::FallbackAbiMismatch { server_abi, client_abi },
        ) && server_abi == vtable.abi_version && client_abi == ABI_VERSION),
        vtable.abi_version / 1000 == ABI_VERSION_MAJOR && vtable.build_number < minimum_build ==> (
        result matches Err(DriverUpdateStatus::FallbackDownloadFailed { reason }) && reason@
            == "Build number "@ + decimal_text(vtable.build_number as nat) + " below minimum "@
            + decimal_text(minimum_build as nat)),
{
    let driver_major: u32 = vtable.abi_version / 1000;
    if driver_major != ABI_VERSION_MAJOR {
        return Err(
            DriverUpdateStatus::FallbackAbiMismatch {
                server_abi: vtable.abi_version,
                client_abi: ABI_VERSION,
            },
        );
    }
    if vtable.build_number < minimum_build {
        let mut reason = join_text("Build number ", decimal(vtable.build_number).as_str());
        reason.append(" below minimum ");
        reason.append(decimal(minimum_build).as_str());
        return Err(DriverUpdateStatus::FallbackDownloadFailed { reason });
    }
    Ok(())
}

/// What a driver reports as its version, as text; a driver that reports nothing
/// has an unknown version.
pub open spec fn version_of_report(reported: Option<Seq<u8>>) -> Seq<char> {
    match reported {
        Some(bytes) => utf8_lossy(bytes),
        None => "unknown"@,
    }
}

/// A driver that was loaded.
pub struct LoadedDriver {
    vtable: DriverVtable,
}

impl LoadedDriver {
    /// The function table that the driver was loaded with.
    pub closed spec fn table(self) -> DriverVtable {
        self.vtable
    }

    /// A loaded driver speaks this host's interface and is recent enough.
    #[verifier::type_invariant]
    pub closed spec fn accepted(self) -> bool {
        vtable_refusal(self.vtable, MIN_DRIVER_BUILD_NUMBER) is None
    }

    /// Starts to load a driver from a shared library file.
    pub fn load(path: &[u8]) -> (load: DriverLoad)
        ensures
            load@ == (LoadView::Opening { path: path@ }),
    {
        DriverLoad { state: LoadState::Opening { path: slice_to_vec(path) } }
    }

    /// The version of a driver, from the bytes of the string that it points to,
    /// or `None` for a null pointer. Bytes that are UTF-8 are taken as they are.
    pub fn version(reported: &Option<Vec<u8>>) -> (version: String)
        ensures
            version@ == version_of_report(optional_bytes(*reported)),
            reported is None ==> version@ == "unknown"@,
            reported matches Some(bytes) ==> version@ == utf8_lossy(bytes@),
            reported matches Some(bytes) ==> (valid_utf8(bytes@) ==> version@ == decode_utf8(
                bytes@,
            )),
    {
        match reported {
            Some(bytes) => text_of_bytes(bytes.as_slice()),
            None => "unknown".to_owned(),
        }
    }

    /// Get the driver's vtable.
    pub fn vtable(&self) -> (vtable: DriverVtable)
        ensures
            vtable == self.table(),
            vtable_refusal(vtable, MIN_DRIVER_BUILD_NUMBER) is None,
    {
        proof {
            use_type_invariant(self);
        }
        self.vtable
    }

    /// The driver in words: the version of its interface and its build number.
    pub fn describe(&self) -> (text: String)
        ensures
            text@ == "LoadedDriver { abi_version: "@ + decimal_text(
                self.table().abi_version as nat,
            ) + ", build_number: "@ + decimal_text(self.table().build_number as nat) + " }"@,
    {
        let mut text = join_text(
            "LoadedDriver { abi_version: ",
            decimal(self.vtable.abi_version as u64).as_str(),
        );
        text.append(", build_number: ");
        text.append(decimal(self.vtable.build_number).as_str());
        text.append(" }");
        text
    }
}

/// What the host has to do next to load a driver.
#[derive(Debug)]
pub enum LoadAction {
    /// Open the shared library at this path.
    Open { path: Vec<u8> },
    /// Look up this symbol in the library.
    Resolve { symbol: &'static str },
    /// Call the entry point.
    Initialize,
    /// Ask the driver for its version.
    Describe,
    /// Nothing: the load is over.
    Stop,
}

/// What came of an action.
#[derive(Debug)]
pub enum LoadEvent {
    /// The library was opened, or could not be for this reason.
    Opened { result: Result<(), String> },
    /// The symbol was found, or was not for this reason.
    Resolved { result: Result<(), String> },
    /// The entry point returned a function table, or null.
    Initialized { vtable: Option<DriverVtable> },
    /// The driver pointed to these bytes as its version, or to null.
    Described { version: Option<Vec<u8>> },
}

enum LoadState {
    Opening { path: Vec<u8> },
    Resolving,
    Initializing,
    Describing { vtable: DriverVtable },
    Loaded { driver: LoadedDriver, version: String },
    Failed { status: DriverUpdateStatus },
}

/// How far a load has come.
pub enum LoadView {
    Opening { path: Seq<u8> },
    Resolving,
    Initializing,
    Describing { vtable: DriverVtable },
    Loaded { vtable: DriverVtable, version: Seq<char> },
    Failed { status: StatusView },
}

/// A [`LoadEvent`] with its texts and bytes as sequences.
pub enum LoadEventView {
    Opened { result: Result<(), Seq<char>> },
    Resolved { result: Result<(), Seq<char>> },
    Initialized { vtable: Option<DriverVtable> },
    Described { version: Option<Seq<u8>> },
}

pub open spec fn outcome_view(result: Result<(), String>) -> Result<(), Seq<char>> {
    match result {
        Ok(_) => Ok(()),
        Err(error) => Err(error@),
    }
}

impl View for LoadEvent {
    type V = LoadEventView;

    open spec fn view(&self) -> LoadEventView {
        match self {
            LoadEvent::Opened { result } => LoadEventView::Opened { result: outcome_view(*result) },
            LoadEvent::Resolved { result } =>
                LoadEventView::Resolved { result: outcome_view(*result) },
            LoadEvent::Initialized { vtable } => LoadEventView::Initialized { vtable: *vtable },
            LoadEvent::Described { version } =>
                LoadEventView::Described { version: optional_bytes(*version) },
        }
    }
}

impl LoadView {
    /// The load waits for the outcome of the action that this event tells of.
    pub open spec fn awaits(self, event: LoadEventView) -> bool {
        match self {
            LoadView::Opening { .. } => event is Opened,
            LoadView::Resolving => event is Resolved,
            LoadView::Initializing => event is Initialized,
            LoadView::Describing { .. } => event is Described,
            LoadView::Loaded { .. } => false,
            LoadView::Failed { .. } => false,
        }
    }

    /// How far the load has come once the outcome is known.
    pub open spec fn next(self, event: LoadEventView) -> LoadView {
        match (self, event) {
            (LoadView::Opening { .. }, LoadEventView::Opened { result }) => match result {
                Ok(_) => LoadView::Resolving,
                Err(error) => failed("dlopen failed: "@ + error),
            },
            (LoadView::Resolving, LoadEventView::Resolved { result }) => match result {
                Ok(_) => LoadView::Initializing,
                Err(error) => failed("Symbol lookup failed: "@ + error),
            },
            (LoadView::Initializing, LoadEventView::Initialized { vtable }) => match vtable {
                None => failed("init returned null"@),
                Some(table) => match vtable_refusal(table, MIN_DRIVER_BUILD_NUMBER) {
                    Some(status) => LoadView::Failed { status },
                    None => LoadView::Describing { vtable: table },
                },
            },
            (LoadView::Describing { vtable }, LoadEventView::Described { version }) =>
                LoadView::Loaded { vtable, version: version_of_report(version) },
            _ => self,
        }
    }
}

/// The load is over, and the driver could not be had for this reason.
pub open spec fn failed(reason: Seq<char>) -> LoadView {
    LoadView::Failed { status: StatusView::FallbackDownloadFailed { reason } }
}

/// A driver that is being loaded.
pub struct DriverLoad {
    state: LoadState,
}

impl View for DriverLoad {
    type V = LoadView;

    closed spec fn view(&self) -> LoadView {
        match self.state {
            LoadState::Opening { path } => LoadView::Opening { path: path@ },
            LoadState::Resolving => LoadView::Resolving,
            LoadState::Initializing => LoadView::Initializing,
            LoadState::Describing { vtable } => LoadView::Describing { vtable },
            LoadState::Loaded { driver, version } =>
                LoadView::Loaded { vtable: driver.table(), version: version@ },
            LoadState::Failed { status } => LoadView::Failed { status: status@ },
        }
    }
}

impl DriverLoad {
    /// No driver gets as far as being asked for its version, let alone loaded,
    /// that the host refuses.
    #[verifier::type_invariant]
    pub closed spec fn only_accepted(self) -> bool {
        self.state matches LoadState::Describing { vtable } ==> vtable_refusal(
            vtable,
            MIN_DRIVER_BUILD_NUMBER,
        ) is None
    }

    /// What has to be done next.
    pub fn action(&self) -> (action: LoadAction)
        ensures
            match self@ {
                LoadView::Opening { path } => action matches LoadAction::Open { path: p } && p@
                    == path,
                LoadView::Resolving => action matches LoadAction::Resolve { symbol } && symbol@
                    == ENTRY_SYMBOL@,
                LoadView::Initializing => action is Initialize,
                LoadView::Describing { .. } => action is Describe,
                LoadView::Loaded { .. } => action is Stop,
                LoadView::Failed { .. } => action is Stop,
            },
    {
        match &self.state {
            LoadState::Opening { path } => LoadAction::Open {
                path: slice_to_vec(path.as_slice()),
            },
            LoadState::Resolving => LoadAction::Resolve { symbol: ENTRY_SYMBOL },
            LoadState::Initializing => LoadAction::Initialize,
            LoadState::Describing { .. } => LoadAction::Describe,
            LoadState::Loaded { .. } => LoadAction::Stop,
            LoadState::Failed { .. } => LoadAction::Stop,
        }
    }

    /// Whether `event` tells of the action that was asked for.
    pub fn awaits(&self, event: &LoadEvent) -> (fits: bool)
        ensures
            fits == self@.awaits(event@),
    {
        match (&self.state, event) {
            (LoadState::Opening { .. }, LoadEvent::Opened { .. }) => true,
            (LoadState::Resolving, LoadEvent::Resolved { .. }) => true,
            (LoadState::Initializing, LoadEvent::Initialized { .. }) => true,
            (LoadState::Describing { .. }, LoadEvent::Described { .. }) => true,
            _ => false,
        }
    }

    /// Takes in what came of the action that was asked for; any other event
    /// changes nothing.
    pub fn advance(self, event: LoadEvent) -> (load: DriverLoad)
        ensures
            load@ == self@.next(event@),
    {
        proof {
            use_type_invariant(&self);
        }
        let state = match (self.state, event) {
            (LoadState::Opening { .. }, LoadEvent::Opened { result }) => match result {
                Ok(_) => LoadState::Resolving,
                Err(error) => download_failed(join_text("dlopen failed: ", error.as_str())),
            },
            (LoadState::Resolving, LoadEvent::Resolved { result }) => match result {
                Ok(_) => LoadState::Initializing,
                Err(error) => download_failed(join_text("Symbol lookup failed: ", error.as_str())),
            },
            (LoadState::Initializing, LoadEvent::Initialized { vtable }) => match vtable {
                None => download_failed("init returned null".to_owned()),
                Some(table) => match check_vtable(&table, MIN_DRIVER_BUILD_NUMBER) {
                    Err(status) => LoadState::Failed { status },
                    Ok(_) => LoadState::Describing { vtable: table },
                },
            },
            (LoadState::Describing { vtable }, LoadEvent::Described { version }) =>
                LoadState::Loaded {
                driver: LoadedDriver { vtable },
                version: LoadedDriver::version(&version),
            },
            (state, _) => state,
        };
        DriverLoad { state }
    }

    /// The driver and its version once it is loaded, the status to report where
    /// it could not be, and `None` while there is still something to do.
    pub fn finish(self) -> (outcome: Option<Result<(LoadedDriver, String), DriverUpdateStatus>>)
        ensures
            match self@ {
                LoadView::Loaded { vtable, version } => outcome matches Some(Ok(loaded))
                    && loaded.0.table() == vtable && loaded.1@ == version,
                LoadView::Failed { status } => outcome matches Some(Err(reported)) && reported@
                    == status,
                _ => outcome is None,
            },
    {
        match self.state {
            LoadState::Loaded { driver, version } => Some(Ok((driver, version))),
            LoadState::Failed { status } => Some(Err(status)),
            _ => None,
        }
    }
}

fn download_failed(reason: String) -> (state: LoadState)
    ensures
        state matches LoadState::Failed { status } && status@ == (
        StatusView::FallbackDownloadFailed { reason: reason@ }),
{
    LoadState::Failed { status: DriverUpdateStatus::FallbackDownloadFailed { reason } }
}

/// What comes of a load whose actions have these outcomes: the function table
/// and the version of the driver, or the status to report.
pub open spec fn load_outcome(
    opened: Result<(), Seq<char>>,
    resolved: Result<(), Seq<char>>,
    table: Option<DriverVtable>,
    reported: Option<Seq<u8>>,
) -> Result<(DriverVtable, Seq<char>), StatusView> {
    match (opened, resolved, table) {
        (Err(error), _, _) => Err(
            StatusView::FallbackDownloadFailed { reason: "dlopen failed: "@ + error },
        ),
        (_, Err(error), _) => Err(
            StatusView::FallbackDownloadFailed { reason: "Symbol lookup failed: "@ + error },
        ),
        (_, _, None) => Err(
            StatusView::FallbackDownloadFailed { reason: "init returned null"@ },
        ),
        (_, _, Some(vtable)) => match vtable_refusal(vtable, MIN_DRIVER_BUILD_NUMBER) {
            Some(status) => Err(status),
            None => Ok((vtable, version_of_report(reported))),
        },
    }
}

/// A load that takes in the outcomes of its actions one after the other ends as
/// `load_outcome` says, and it ends at the first outcome that is a failure.
pub proof fn law_load_outcome(
    path: Seq<u8>,
    opened: Result<(), Seq<char>>,
    resolved: Result<(), Seq<char>>,
    table: Option<DriverVtable>,
    reported: Option<Seq<u8>>,
)
    ensures
        (LoadView::Opening { path }).next(LoadEventView::Opened { result: opened }).next(
            LoadEventView::Resolved { result: resolved },
        ).next(LoadEventView::Initialized { vtable: table }).next(
            LoadEventView::Described { version: reported },
        ) == match load_outcome(opened, resolved, table, reported) {
            Ok((vtable, version)) => LoadView::Loaded { vtable, version },
            Err(status) => LoadView::Failed { status },
        },
{
}

/// A load that is over stays as it is.
pub proof fn law_outcome_is_final(load: LoadView, event: LoadEventView)
    requires
        load is Loaded || load is Failed,
    ensures
        load.next(event) == load,
{
}

/// A driver is loaded only if the major version of its interface is the host's
/// and its build number is high enough.
pub proof fn law_loaded_driver_is_compatible(
    opened: Result<(), Seq<char>>,
    resolved: Result<(), Seq<char>>,
    table: Option<DriverVtable>,
    reported: Option<Seq<u8>>,
)
    requires
        load_outcome(opened, resolved, table, reported) is Ok,
    ensures
        ({
            let vtable = load_outcome(opened, resolved, table, reported)->Ok_0.0;
            &&& table == Some(vtable)
            &&& vtable.abi_version / 1000 == ABI_VERSION_MAJOR
            &&& vtable.build_number >= MIN_DRIVER_BUILD_NUMBER
        }),
{
}

/// A driver that is refused is not called again: the load is over before the
/// driver would be asked for its version.
pub proof fn law_refused_driver_is_not_called(vtable: DriverVtable)
    requires
        vtable_refusal(vtable, MIN_DRIVER_BUILD_NUMBER) is Some,
    ensures
        LoadView::Initializing.next(LoadEventView::Initialized { vtable: Some(vtable) }) is Failed,
{
}

/// The versions of the interface that a host accepts are those that share the
/// major version, whatever the minor one; its own is among them.
pub proof fn law_accepted_abi_versions(vtable: DriverVtable)
    requires
        vtable.build_number >= MIN_DRIVER_BUILD_NUMBER,
    ensures
        vtable_refusal(vtable, MIN_DRIVER_BUILD_NUMBER) is None <==> ABI_VERSION_MAJOR * 1000
            <= vtable.abi_version < (ABI_VERSION_MAJOR + 1) * 1000,
        vtable.abi_version == ABI_VERSION ==> vtable_refusal(vtable, MIN_DRIVER_BUILD_NUMBER)
            is None,
{
}

/// Of a function table the major version of the interface and the build number
/// decide, and nothing else: it is accepted exactly when the one is the host's and
/// the other is high enough. A wrong interface is reported with both versions,
/// whatever the build number; a build number that is too low, with both numbers.
pub proof fn law_refusal_of_a_table(vtable: DriverVtable, minimum_build: u64)
    ensures
        vtable_refusal(vtable, minimum_build) is None <==> vtable.abi_version / 1000
            == ABI_VERSION_MAJOR && vtable.build_number >= minimum_build,
        vtable.abi_version / 1000 != ABI_VERSION_MAJOR ==> vtable_refusal(vtable, minimum_build)
            == Some(
            StatusView::FallbackAbiMismatch {
                server_abi: vtable.abi_version,
                client_abi: ABI_VERSION,
            },
        ),
        vtable.abi_version / 1000 == ABI_VERSION_MAJOR && vtable.build_number < minimum_build
            ==> vtable_refusal(vtable, minimum_build) == Some(
            StatusView::FallbackDownloadFailed {
                reason: "Build number "@ + decimal_text(vtable.build_number as nat)
                    + " below minimum "@ + decimal_text(minimum_build as nat),
            },
        ),
{
}

/// A library that opens, has the entry point and returns a table of this host's
/// interface with a build number that is high enough is loaded, with just that
/// table, and with the version that it reports; a driver that reports none has an
/// unknown version.
pub proof fn law_compatible_driver_is_loaded(
    path: Seq<u8>,
    vtable: DriverVtable,
    reported: Seq<u8>,
)
    requires
        vtable.abi_version / 1000 == ABI_VERSION_MAJOR,
        vtable.build_number >= MIN_DRIVER_BUILD_NUMBER,
    ensures
        ({
            let asked = (LoadView::Opening { path }).next(
                LoadEventView::Opened { result: Ok(()) },
            ).next(LoadEventView::Resolved { result: Ok(()) }).next(
                LoadEventView::Initialized { vtable: Some(vtable) },
            );
            &&& asked == (LoadView::Describing { vtable })
            &&& asked.next(LoadEventView::Described { version: Some(reported) }) == (
            LoadView::Loaded { vtable, version: utf8_lossy(reported) })
            &&& asked.next(LoadEventView::Described { version: None }) == (LoadView::Loaded {
                vtable,
                version: "unknown"@,
            })
        }),
{
}

/// A load goes on from each step that succeeds to the next, and each step that
/// fails ends it with its own reason: the error of the system behind the name of
/// the step, the missing table, the versions of a wrong interface, or the build
/// number that is too low.
pub proof fn law_failure_is_reported(path: Seq<u8>, error: Seq<char>, vtable: DriverVtable)
    ensures
        (LoadView::Opening { path }).next(LoadEventView::Opened { result: Ok(()) })
            == LoadView::Resolving,
        (LoadView::Opening { path }).next(LoadEventView::Opened { result: Err(error) }) == (
        LoadView::Failed {
            status: StatusView::FallbackDownloadFailed { reason: "dlopen failed: "@ + error },
        }),
        LoadView::Resolving.next(LoadEventView::Resolved { result: Ok(()) })
            == LoadView::Initializing,
        LoadView::Resolving.next(LoadEventView::Resolved { result: Err(error) }) == (
        LoadView::Failed {
            status: StatusView::FallbackDownloadFailed { reason: "Symbol lookup failed: "@ + error },
        }),
        LoadView::Initializing.next(LoadEventView::Initialized { vtable: None }) == (
        LoadView::Failed {
            status: StatusView::FallbackDownloadFailed { reason: "init returned null"@ },
        }),
        vtable.abi_version / 1000 != ABI_VERSION_MAJOR ==> LoadView::Initializing.next(
            LoadEventView::Initialized { vtable: Some(vtable) },
        ) == (LoadView::Failed {
            status: StatusView::FallbackAbiMismatch {
                server_abi: vtable.abi_version,
                client_abi: ABI_VERSION,
            },
        }),
        vtable.abi_version / 1000 == ABI_VERSION_MAJOR && vtable.build_number
            < MIN_DRIVER_BUILD_NUMBER ==> LoadView::Initializing.next(
            LoadEventView::Initialized { vtable: Some(vtable) },
        ) == (LoadView::Failed {
            status: StatusView::FallbackDownloadFailed {
                reason: "Build number "@ + decimal_text(vtable.build_number as nat)
                    + " below minimum "@ + decimal_text(MIN_DRIVER_BUILD_NUMBER as nat),
            },
        }),
{
}

/// A load that has got as far as the version is loaded with the table that it has,
/// whatever the table.
pub proof fn law_described_driver_is_loaded(vtable: DriverVtable, reported: Option<Seq<u8>>)
    ensures
        (LoadView::Describing { vtable }).next(LoadEventView::Described { version: reported }) == (
        LoadView::Loaded {
            vtable,
            version: match reported {
                Some(bytes) => utf8_lossy(bytes),
                None => "unknown"@,
            },
        }),
{
}

/// Each stage of a load awaits the outcome of its own action and no other, a load
/// that is over awaits nothing, and an event that is not awaited changes nothing.
pub proof fn law_only_awaited_events_count(load: LoadView, event: LoadEventView)
    ensures
        load.awaits(event) <==> {
            ||| load is Opening && event is Opened
            ||| load is Resolving && event is Resolved
            ||| load is Initializing && event is Initialized
            ||| load is Describing && event is Described
        },
        !load.awaits(event) ==> load.next(event) == load,
{
}

/// The view of an event tells the same of the same action.
pub proof fn law_load_event_view(
    error: String,
    vtable: Option<DriverVtable>,
    bytes: Vec<u8>,
)
    ensures
        (LoadEvent::Opened { result: Ok(()) })@ == (LoadEventView::Opened { result: Ok(()) }),
        (LoadEvent::Opened { result: Err(error) })@ == (LoadEventView::Opened {
            result: Err(error@),
        }),
        (LoadEvent::Resolved { result: Ok(()) })@ == (LoadEventView::Resolved { result: Ok(()) }),
        (LoadEvent::Resolved { result: Err(error) })@ == (LoadEventView::Resolved {
            result: Err(error@),
        }),
        (LoadEvent::Initialized { vtable })@ == (LoadEventView::Initialized { vtable }),
        (LoadEvent::Described { version: Some(bytes) })@ == (LoadEventView::Described {
            version: Some(bytes@),
        }),
        (LoadEvent::Described { version: None })@ == (LoadEventView::Described { version: None }),
{
}

} // verus!
