//! Local caching of downloaded driver binaries.
//!
//! What is to be done to the file system is handed to the host program as
//! [`FileStep`]s, and a lookup in the cache is a [`CacheLookup`] that asks the host
//! for one thing after the other. The laws on what is found again are those of a
//! system where `/` stands between the names of a path.

use vstd::prelude::*;
use vstd::slice::slice_to_vec;
use vstd::utf8::encode_utf8;

use crate::crypto::SHA256_LENGTH_LIMIT;
use crate::path::{
    law_unix_path_by_steps, lemma_encode_concat, lemma_extension_start, lemma_last_byte, unix_join,
    unix_path, FilePath, PathOp, PathView, DOT, SEPARATOR,
};
use crate::signature::{is_hex_text, law_hash_is_64_hex_digits, sha256_hex, sha256_text};
use crate::text::{join_text, optional_bytes};

verus! {

/// Default cache directory, below the home directory.
pub const DEFAULT_CACHE_DIR: &'static str = ".cache/scylla-driver";

/// Permission bits of a cache directory: access for its owner alone.
pub const CACHE_DIR_MODE: u32 = 0o700;

/// The name of the file that holds the binary with this hash.
pub open spec fn cached_name(hash: Seq<char>) -> Seq<char> {
    "libscylla_driver_"@ + hash + ".so"@
}

/// The path of the binary with this hash.
pub open spec fn cached_file(dir: PathView, hash: Seq<char>) -> PathView {
    dir.join(cached_name(hash))
}

/// The path at which the binary with this hash is written before it is moved to
/// its place.
pub open spec fn staging_file(dir: PathView, hash: Seq<char>) -> PathView {
    cached_file(dir, hash).with_extension("tmp"@)
}

/// The path of the binary with this hash in a cache directory.
pub fn cached_path(dir: &FilePath, hash: &str) -> (path: FilePath)
    ensures
        path@ == cached_file(dir@, hash@),
        path@.base == dir@.base,
        path@.ops == dir@.ops + seq![
            PathOp::Join { name: "libscylla_driver_"@ + hash@ + ".so"@ },
        ],
{
    proof {
        law_cache_paths(dir@, hash@);
    }
    let mut name = join_text("libscylla_driver_", hash);
    name.append(".so");
    dir.join(name.as_str())
}

/// The path at which the binary with this hash is written before it is moved to
/// its place.
pub fn staging_path(dir: &FilePath, hash: &str) -> (path: FilePath)
    ensures
        path@ == staging_file(dir@, hash@),
        path@.base == dir@.base,
        path@.ops == dir@.ops + seq![
            PathOp::Join { name: "libscylla_driver_"@ + hash@ + ".so"@ },
            PathOp::WithExtension { extension: "tmp"@ },
        ],
{
    proof {
        law_cache_paths(dir@, hash@);
    }
    cached_path(dir, hash).with_extension("tmp")
}

/// No cache directory could be found.
#[derive(Debug, Clone, Copy, PartialEq, Eq, Structural)]
pub struct NoCacheDir;

impl NoCacheDir {
    /// The text of the error.
    pub fn message(&self) -> (text: String)
        ensures
            text@ == "Cannot determine cache directory"@,
    {
        "Cannot determine cache directory".to_owned()
    }
}

/// The cache directory: the one that is configured or else, below the home
/// directory, the default one.
pub open spec fn cache_dir_of(configured: Option<Seq<char>>, home: Option<Seq<u8>>) -> Option<
    PathView,
> {
    match (configured, home) {
        (Some(dir), _) => Some(PathView::given(encode_utf8(dir))),
        (None, Some(home)) => Some(PathView::given(home).join(DEFAULT_CACHE_DIR@)),
        (None, None) => None,
    }
}

/// The view of a text that may be missing.
pub open spec fn text_view(text: Option<&str>) -> Option<Seq<char>> {
    match text {
        Some(text) => Some(text@),
        None => None,
    }
}

/// The view of a byte string that may be missing.
pub open spec fn bytes_view(bytes: Option<&[u8]>) -> Option<Seq<u8>> {
    match bytes {
        Some(bytes) => Some(bytes@),
        None => None,
    }
}

/// The view of a path that may be missing.
pub open spec fn path_view(path: Option<&FilePath>) -> Option<PathView> {
    match path {
        Some(path) => Some(path@),
        None => None,
    }
}

/// Finds the cache directory, from the value of `SCYLLA_DRIVER_CACHE` where it is
/// set and is text, and from the home directory where there is one.
pub fn cache_dir(configured: Option<&str>, home: Option<&[u8]>) -> (result: Result<
    FilePath,
    NoCacheDir,
>)
    ensures
        match result {
            Ok(dir) => cache_dir_of(text_view(configured), bytes_view(home)) == Some(dir@),
            Err(_) => cache_dir_of(text_view(configured), bytes_view(home)) is None,
        },
        result is Err <==> configured is None && home is None,
        configured matches Some(text) ==> (result matches Ok(dir) && dir@.base == encode_utf8(text@)
            && dir@.ops.len() == 0),
        configured is None ==> (home matches Some(bytes) ==> (result matches Ok(dir) && dir@.base
            == bytes@ && dir@.ops == seq![PathOp::Join { name: DEFAULT_CACHE_DIR@ }])),
{
    match configured {
        Some(dir) => Ok(FilePath::given(dir.as_bytes())),
        None => match home {
            Some(home) => Ok(FilePath::given(home).join(DEFAULT_CACHE_DIR)),
            None => Err(NoCacheDir),
        },
    }
}

/// One change to the file system. Steps are carried out in order, and the first
/// that fails ends the whole.
#[derive(Debug, Clone, PartialEq, Eq)]
pub enum FileStep {
    /// Create this directory and every one above it that is missing.
    CreateDir { path: FilePath },
    /// Set the permission bits, on systems that have them.
    SetMode { path: FilePath, mode: u32 },
    /// Write a file, in place of what was there.
    Write { path: FilePath, data: Vec<u8> },
    /// Move a file, in place of what was there.
    Rename { from: FilePath, to: FilePath },
}

/// A [`FileStep`] with its bytes as sequences.
pub enum FileOp {
    CreateDir { path: PathView },
    SetMode { path: PathView, mode: u32 },
    Write { path: PathView, data: Seq<u8> },
    Rename { from: PathView, to: PathView },
}

impl View for FileStep {
    type V = FileOp;

    open spec fn view(&self) -> FileOp {
        match self {
            FileStep::CreateDir { path } => FileOp::CreateDir { path: path@ },
            FileStep::SetMode { path, mode } => FileOp::SetMode { path: path@, mode: *mode },
            FileStep::Write { path, data } => FileOp::Write { path: path@, data: data@ },
            FileStep::Rename { from, to } => FileOp::Rename { from: from@, to: to@ },
        }
    }
}

/// The views of the steps, in order.
pub open spec fn ops_of(steps: Seq<FileStep>) -> Seq<FileOp> {
    Seq::new(steps.len(), |i: int| steps[i]@)
}

/// What makes a cache directory fit for use: nothing where it exists; where it
/// does not, it is created and closed to all but its owner.
pub open spec fn prepare_ops(dir: PathView, exists: bool) -> Seq<FileOp> {
    if exists {
        seq![]
    } else {
        seq![
            FileOp::CreateDir { path: dir },
            FileOp::SetMode { path: dir, mode: CACHE_DIR_MODE },
        ]
    }
}

/// Makes a cache directory fit for use.
pub fn prepare_cache_dir(dir: &FilePath, exists: bool) -> (steps: Vec<FileStep>)
    ensures
        ops_of(steps@) == prepare_ops(dir@, exists),
        exists ==> steps@.len() == 0,
        !exists ==> {
            &&& steps@.len() == 2
            &&& steps@[0] matches FileStep::CreateDir { path }
            &&& path@ == dir@
        },
        !exists ==> {
            &&& steps@.len() == 2
            &&& steps@[1] matches FileStep::SetMode { path, mode }
            &&& path@ == dir@
            &&& mode == 0o700
        },
{
    let mut steps: Vec<FileStep> = Vec::new();
    if !exists {
        steps.push(FileStep::CreateDir { path: dir.copy() });
        steps.push(
            FileStep::SetMode { path: dir.copy(), mode: CACHE_DIR_MODE },
        );
    }
    assert(ops_of(steps@) =~= prepare_ops(dir@, exists));
    steps
}

/// What saves a binary: it is written next to its place first, then moved there
/// in one go.
pub open spec fn save_ops(dir: PathView, hash: Seq<char>, data: Seq<u8>) -> Seq<FileOp> {
    seq![
        FileOp::Write { path: staging_file(dir, hash), data },
        FileOp::Rename { from: staging_file(dir, hash), to: cached_file(dir, hash) },
    ]
}

/// Save a binary to the cache directory.
pub fn save_to_cache(dir: &FilePath, hash: &str, data: &[u8]) -> (steps: Vec<FileStep>)
    ensures
        ops_of(steps@) == save_ops(dir@, hash@, data@),
        steps@.len() == 2,
        steps@[0] matches FileStep::Write { path, data: written } && written@ == data@ && path@
            == staging_file(dir@, hash@),
        steps@[1] matches FileStep::Rename { from, to } && from@ == staging_file(dir@, hash@) && to@
            == cached_file(dir@, hash@),
{
    let mut steps: Vec<FileStep> = Vec::new();
    steps.push(
        FileStep::Write { path: staging_path(dir, hash), data: slice_to_vec(data) },
    );
    steps.push(FileStep::Rename { from: staging_path(dir, hash), to: cached_path(dir, hash) });
    assert(ops_of(steps@) =~= save_ops(dir@, hash@, data@));
    steps
}

/// What the host has to find out or do next to look a binary up.
#[derive(Debug)]
pub enum LookupAction {
    /// Find out whether there is anything at this path.
    CheckExists { path: FilePath },
    /// Find out whether a regular file lies at this path itself, not where a
    /// link there leads.
    Inspect { path: FilePath },
    /// Read the file.
    Read { path: FilePath },
    /// Remove the file, and go on even if it cannot be removed.
    Remove { path: FilePath },
    /// Nothing: the lookup is over.
    Stop,
}

/// What came of an action.
#[derive(Debug)]
pub enum LookupEvent {
    /// Whether there is anything at the path.
    Checked { exists: bool },
    /// Whether a regular file lies there, or `None` if that could not be found
    /// out.
    Inspected { regular: Option<bool> },
    /// What the file holds, or `None` if it could not be read.
    Content { data: Option<Vec<u8>> },
    /// The file was removed, or could not be.
    Removed,
}

enum LookupState {
    Checking { path: FilePath, hash: String },
    Inspecting { path: FilePath, hash: String },
    Reading { path: FilePath, hash: String },
    Removing { path: FilePath },
    Finished { data: Option<Vec<u8>> },
}

/// How far a lookup has come.
pub enum LookupView {
    Checking { path: PathView, hash: Seq<char> },
    Inspecting { path: PathView, hash: Seq<char> },
    Reading { path: PathView, hash: Seq<char> },
    Removing { path: PathView },
    Finished { data: Option<Seq<u8>> },
}

/// A [`LookupEvent`] with its bytes as a sequence.
pub enum LookupEventView {
    Checked { exists: bool },
    Inspected { regular: Option<bool> },
    Content { data: Option<Seq<u8>> },
    Removed,
}

impl View for LookupEvent {
    type V = LookupEventView;

    open spec fn view(&self) -> LookupEventView {
        match self {
            LookupEvent::Checked { exists } => LookupEventView::Checked { exists: *exists },
            LookupEvent::Inspected { regular } => LookupEventView::Inspected { regular: *regular },
            LookupEvent::Content { data } => LookupEventView::Content { data: optional_bytes(*data) },
            LookupEvent::Removed => LookupEventView::Removed,
        }
    }
}

impl LookupView {
    /// A lookup of this hash begins; without a cache directory it is over at
    /// once.
    pub open spec fn start(dir: Option<PathView>, hash: Seq<char>) -> LookupView {
        match dir {
            Some(dir) => LookupView::Checking { path: cached_file(dir, hash), hash },
            None => LookupView::Finished { data: None },
        }
    }

    /// The event can be taken in: contents to be hashed are not longer than can
    /// be.
    pub open spec fn takes(self, event: LookupEventView) -> bool {
        match (self, event) {
            (LookupView::Reading { .. }, LookupEventView::Content { data: Some(bytes) }) =>
                bytes.len() < SHA256_LENGTH_LIMIT,
            _ => true,
        }
    }

    /// The lookup waits for the outcome of the action that this event tells of,
    /// and can take it in.
    pub open spec fn awaits(self, event: LookupEventView) -> bool {
        match self {
            LookupView::Checking { .. } => event is Checked,
            LookupView::Inspecting { .. } => event is Inspected,
            LookupView::Reading { .. } => event is Content && self.takes(event),
            LookupView::Removing { .. } => event is Removed,
            LookupView::Finished { .. } => false,
        }
    }

    /// How far a lookup has come with a file of these contents, whose own hash is
    /// `actual_hash`: they are what was looked for, or the file has to go.
    pub open spec fn judged(
        path: PathView,
        hash: Seq<char>,
        data: Seq<u8>,
        actual_hash: Seq<char>,
    ) -> LookupView {
        if actual_hash == hash {
            LookupView::Finished { data: Some(data) }
        } else {
            LookupView::Removing { path }
        }
    }

    /// How far the lookup has come once the outcome is known.
    pub open spec fn next(self, event: LookupEventView) -> LookupView {
        match (self, event) {
            (LookupView::Checking { path, hash }, LookupEventView::Checked { exists }) => if exists {
                LookupView::Inspecting { path, hash }
            } else {
                LookupView::Finished { data: None }
            },
            (
                LookupView::Inspecting { path, hash },
                LookupEventView::Inspected { regular },
            ) => if regular == Some(true) {
                LookupView::Reading { path, hash }
            } else {
                LookupView::Finished { data: None }
            },
            (LookupView::Reading { path, hash }, LookupEventView::Content { data }) => match data {
                Some(bytes) => LookupView::judged(path, hash, bytes, sha256_text(bytes)),
                None => LookupView::Finished { data: None },
            },
            (LookupView::Removing { .. }, LookupEventView::Removed) => LookupView::Finished {
                data: None,
            },
            _ => self,
        }
    }
}

/// A lookup in the cache.
pub struct CacheLookup {
    state: LookupState,
}

impl View for CacheLookup {
    type V = LookupView;

    closed spec fn view(&self) -> LookupView {
        match self.state {
            LookupState::Checking { path, hash } => LookupView::Checking {
                path: path@,
                hash: hash@,
            },
            LookupState::Inspecting { path, hash } => LookupView::Inspecting {
                path: path@,
                hash: hash@,
            },
            LookupState::Reading { path, hash } => LookupView::Reading { path: path@, hash: hash@ },
            LookupState::Removing { path } => LookupView::Removing { path: path@ },
            LookupState::Finished { data } => LookupView::Finished { data: optional_bytes(data) },
        }
    }
}

/// Try to load a cached binary by its hash. Nothing is found if it is not cached
/// or if the integrity check fails, nor without a cache directory.
pub fn load_cached(dir: Option<&FilePath>, hash: &str) -> (lookup: CacheLookup)
    ensures
        lookup@ == LookupView::start(path_view(dir), hash@),
{
    match dir {
        Some(dir) => CacheLookup {
            state: LookupState::Checking { path: cached_path(dir, hash), hash: hash.to_owned() },
        },
        None => CacheLookup { state: LookupState::Finished { data: None } },
    }
}

impl CacheLookup {
    /// What has to be done next.
    pub fn action(&self) -> (action: LookupAction)
        ensures
            match self@ {
                LookupView::Checking { path, .. } => action matches LookupAction::CheckExists {
                    path: p,
                } && p@ == path,
                LookupView::Inspecting { path, .. } => action matches LookupAction::Inspect {
                    path: p,
                } && p@ == path,
                LookupView::Reading { path, .. } => action matches LookupAction::Read { path: p }
                    && p@ == path,
                LookupView::Removing { path } => action matches LookupAction::Remove { path: p }
                    && p@ == path,
                LookupView::Finished { .. } => action is Stop,
            },
    {
        match &self.state {
            LookupState::Checking { path, .. } => LookupAction::CheckExists {
                path: path.copy(),
            },
            LookupState::Inspecting { path, .. } => LookupAction::Inspect {
                path: path.copy(),
            },
            LookupState::Reading { path, .. } => LookupAction::Read {
                path: path.copy(),
            },
            LookupState::Removing { path } => LookupAction::Remove {
                path: path.copy(),
            },
            LookupState::Finished { .. } => LookupAction::Stop,
        }
    }

    /// Whether `event` tells of the action that was asked for, and can be taken
    /// in.
    pub fn awaits(&self, event: &LookupEvent) -> (fits: bool)
        ensures
            fits == self@.awaits(event@),
    {
        match (&self.state, event) {
            (LookupState::Checking { .. }, LookupEvent::Checked { .. }) => true,
            (LookupState::Inspecting { .. }, LookupEvent::Inspected { .. }) => true,
            (LookupState::Reading { .. }, LookupEvent::Content { data }) => match data {
                Some(bytes) => (bytes.len() as u64) < SHA256_LENGTH_LIMIT,
                None => true,
            },
            (LookupState::Removing { .. }, LookupEvent::Removed) => true,
            _ => false,
        }
    }

    /// How far a lookup of `hash` has come with the file at `path`, which holds
    /// `data` and whose own hash is `actual_hash`.
    pub fn judge(path: FilePath, hash: String, data: Vec<u8>, actual_hash: String) -> (lookup:
        CacheLookup)
        ensures
            lookup@ == LookupView::judged(path@, hash@, data@, actual_hash@),
            hash@ == actual_hash@ ==> lookup@ == (LookupView::Finished { data: Some(data@) }),
            hash@ != actual_hash@ ==> lookup@ == (LookupView::Removing { path: path@ }),
    {
        if actual_hash == hash {
            CacheLookup { state: LookupState::Finished { data: Some(data) } }
        } else {
            CacheLookup { state: LookupState::Removing { path } }
        }
    }

    /// Takes in what came of the action that was asked for; any other event
    /// changes nothing.
    pub fn advance(self, event: LookupEvent) -> (lookup: CacheLookup)
        requires
            self@.takes(event@),
        ensures
            lookup@ == self@.next(event@),
            self@ matches LookupView::Reading { hash, .. } ==> (hash.len() != 64 || !is_hex_text(
                hash,
            ) ==> !(lookup@ matches LookupView::Finished { data: Some(_) })),
    {
        let missing = LookupState::Finished { data: None };
        let state = match (self.state, event) {
            (LookupState::Checking { path, hash }, LookupEvent::Checked { exists }) => if exists {
                LookupState::Inspecting { path, hash }
            } else {
                missing
            },
            (LookupState::Inspecting { path, hash }, LookupEvent::Inspected { regular }) =>
            match regular {
                Some(true) => LookupState::Reading { path, hash },
                _ => missing,
            },
            (LookupState::Reading { path, hash }, LookupEvent::Content { data }) => match data {
                Some(bytes) => {
                    // Re-verify that the hash matches the file name.
                    let actual_hash = sha256_hex(bytes.as_slice());
                    return CacheLookup::judge(path, hash, bytes, actual_hash);
                },
                None => missing,
            },
            (LookupState::Removing { .. }, LookupEvent::Removed) => missing,
            (state, _) => state,
        };
        CacheLookup { state }
    }

    /// What was found, `Some(None)` if nothing was, and `None` while there is
    /// still something to do.
    pub fn finish(self) -> (outcome: Option<Option<Vec<u8>>>)
        ensures
            match self@ {
                LookupView::Finished { data } => outcome matches Some(found) && optional_bytes(found)
                    == data,
                _ => outcome is None,
            },
    {
        match self.state {
            LookupState::Finished { data } => Some(data),
            _ => None,
        }
    }
}

/// The regular files that there are, by their Unix paths, after a step is carried
/// out. Files are told apart by the text of their paths: no two of the paths lead
/// to one file.
pub open spec fn after_op(files: Map<Seq<u8>, Seq<u8>>, op: FileOp) -> Map<Seq<u8>, Seq<u8>> {
    match op {
        FileOp::CreateDir { .. } => files,
        FileOp::SetMode { .. } => files,
        FileOp::Write { path, data } => files.insert(unix_path(path), data),
        FileOp::Rename { from, to } => files.remove(unix_path(from)).insert(
            unix_path(to),
            files[unix_path(from)],
        ),
    }
}

/// The regular files that there are after all steps are carried out.
pub open spec fn after_ops(files: Map<Seq<u8>, Seq<u8>>, ops: Seq<FileOp>) -> Map<
    Seq<u8>,
    Seq<u8>,
>
    decreases ops.len(),
{
    if ops.len() == 0 {
        files
    } else {
        after_op(after_ops(files, ops.drop_last()), ops.last())
    }
}

/// What a lookup finds among these files.
pub open spec fn found_in(files: Map<Seq<u8>, Seq<u8>>, dir: PathView, hash: Seq<char>) -> Option<
    Seq<u8>,
> {
    let path = unix_path(cached_file(dir, hash));
    if files.dom().contains(path) && sha256_text(files[path]) == hash {
        Some(files[path])
    } else {
        None
    }
}

/// How far a lookup among these files has come once the path was checked and
/// inspected and the file, where there is one, was read.
pub open spec fn looked_up(
    files: Map<Seq<u8>, Seq<u8>>,
    dir: PathView,
    hash: Seq<char>,
) -> LookupView {
    let path = unix_path(cached_file(dir, hash));
    LookupView::start(Some(dir), hash).next(
        LookupEventView::Checked { exists: files.dom().contains(path) },
    ).next(LookupEventView::Inspected { regular: Some(true) }).next(
        LookupEventView::Content { data: Some(files[path]) },
    )
}

/// The text literals that the paths are made of, as bytes.
proof fn lemma_literals()
    ensures
        encode_utf8(".so"@) == seq![DOT, 0x73u8, 0x6fu8],
        encode_utf8("tmp"@) == seq![0x74u8, 0x6du8, 0x70u8],
        encode_utf8("libscylla_driver_"@).len() == 17,
        encode_utf8("libscylla_driver_"@)[0] != SEPARATOR,
        "libscylla_driver_"@.len() == 17,
        "libscylla_driver_"@.last() != '/',
{
    reveal_strlit(".so");
    reveal_strlit("tmp");
    reveal_strlit("libscylla_driver_");
    vstd::utf8::is_ascii_chars_encode_utf8(".so"@);
    vstd::utf8::is_ascii_chars_encode_utf8("tmp"@);
    vstd::utf8::is_ascii_chars_encode_utf8("libscylla_driver_"@);
    assert(encode_utf8(".so"@) =~= seq![DOT, 0x73u8, 0x6fu8]);
    assert(encode_utf8("tmp"@) =~= seq![0x74u8, 0x6du8, 0x70u8]);
}

/// The directory with what stands between it and a name in it.
spec fn below(dir: Seq<u8>) -> Seq<u8> {
    if dir.len() == 0 || dir.last() == SEPARATOR {
        dir
    } else {
        dir.push(SEPARATOR)
    }
}

/// The Unix path of a cached binary, piece by piece.
proof fn lemma_cached_file(dir: PathView, hash: Seq<char>)
    ensures
        unix_path(cached_file(dir, hash)) == below(unix_path(dir)) + encode_utf8(cached_name(hash)),
        encode_utf8(cached_name(hash)) == encode_utf8("libscylla_driver_"@ + hash) + encode_utf8(
            ".so"@,
        ),
        encode_utf8("libscylla_driver_"@ + hash) == encode_utf8("libscylla_driver_"@)
            + encode_utf8(hash),
{
    lemma_literals();
    law_unix_path_by_steps(dir, seq![], cached_name(hash));
    lemma_encode_concat("libscylla_driver_"@, hash);
    lemma_encode_concat("libscylla_driver_"@ + hash, ".so"@);
    let name = encode_utf8(cached_name(hash));
    assert(name[0] != SEPARATOR);
    assert(unix_join(unix_path(dir), name) =~= below(unix_path(dir)) + name);
}

/// On Unix the binary with a hash that holds no `/` lies in the cache directory
/// under the name `libscylla_driver_<hash>.so`, and is written there as
/// `libscylla_driver_<hash>.tmp` first.
pub proof fn law_unix_cache_paths(dir: PathView, hash: Seq<char>)
    requires
        !hash.contains('/'),
    ensures
        unix_path(cached_file(dir, hash)) == unix_join(
            unix_path(dir),
            encode_utf8("libscylla_driver_"@ + hash + ".so"@),
        ),
        unix_path(staging_file(dir, hash)) == unix_join(
            unix_path(dir),
            encode_utf8("libscylla_driver_"@ + hash + ".tmp"@),
        ),
{
    lemma_literals();
    lemma_cached_file(dir, hash);
    law_unix_path_by_steps(dir, seq![], cached_name(hash));
    law_unix_path_by_steps(cached_file(dir, hash), seq![], "tmp"@);
    let stem_name = "libscylla_driver_"@ + hash;
    let stem = below(unix_path(dir)) + encode_utf8(stem_name);
    assert(stem_name.last() != '/') by {
        if hash.len() > 0 {
            assert(stem_name.last() == hash.last());
            assert(hash.contains(hash.last()));
        } else {
            assert(stem_name =~= "libscylla_driver_"@);
        }
    }
    lemma_last_byte(stem_name);
    assert(stem.last() != SEPARATOR);
    lemma_extension_start(stem);
    let path = unix_path(cached_file(dir, hash));
    assert(path =~= stem + seq![DOT, 0x73u8, 0x6fu8]);
    assert(path.take(stem.len() as int) =~= stem);
    reveal_strlit(".tmp");
    vstd::utf8::is_ascii_chars_encode_utf8(".tmp"@);
    lemma_encode_concat(stem_name, ".tmp"@);
    let name = encode_utf8(stem_name + ".tmp"@);
    assert(encode_utf8(".tmp"@) =~= seq![DOT, 0x74u8, 0x6du8, 0x70u8]);
    assert(name[0] == encode_utf8("libscylla_driver_"@)[0]);
    assert(unix_path(staging_file(dir, hash)) =~= stem.push(DOT) + encode_utf8("tmp"@));
    assert(unix_join(unix_path(dir), name) =~= below(unix_path(dir)) + name);
    assert(stem.push(DOT) + encode_utf8("tmp"@) =~= below(unix_path(dir)) + name);
}

/// In one cache directory, binaries with different hashes lie at different
/// paths.
pub proof fn law_cached_files_are_distinct(dir: PathView, hash1: Seq<char>, hash2: Seq<char>)
    requires
        unix_path(cached_file(dir, hash1)) == unix_path(cached_file(dir, hash2)),
    ensures
        hash1 == hash2,
{
    let start = below(unix_path(dir)).len() as int;
    let file1 = unix_path(cached_file(dir, hash1));
    let file2 = unix_path(cached_file(dir, hash2));
    let name1 = cached_name(hash1);
    let name2 = cached_name(hash2);
    lemma_cached_file(dir, hash1);
    lemma_cached_file(dir, hash2);
    assert(encode_utf8(name1) =~= file1.subrange(start, file1.len() as int));
    assert(encode_utf8(name2) =~= file2.subrange(start, file2.len() as int));
    vstd::utf8::encode_utf8_decode_utf8(name1);
    vstd::utf8::encode_utf8_decode_utf8(name2);
    let prefix = "libscylla_driver_"@.len() as int;
    let suffix = ".so"@.len();
    assert(hash1 =~= name1.subrange(prefix, name1.len() - suffix));
    assert(hash2 =~= name2.subrange(prefix, name2.len() - suffix));
}

/// No binary is written at a path at which a binary is looked up: a lookup never
/// sees a half-written file.
pub proof fn law_staging_is_never_looked_up(dir: PathView, hash1: Seq<char>, hash2: Seq<char>)
    ensures
        staging_file(dir, hash1) != cached_file(dir, hash2),
        unix_path(staging_file(dir, hash1)) != unix_path(cached_file(dir, hash2)),
{
    lemma_literals();
    lemma_cached_file(dir, hash2);
    law_unix_path_by_steps(cached_file(dir, hash1), seq![], "tmp"@);
    assert(unix_path(staging_file(dir, hash1)).last() == 0x70u8);
    assert(unix_path(cached_file(dir, hash2)).last() == 0x6fu8);
}

/// A lookup gives back contents only if their SHA-256 hash is the hash that was
/// looked for.
pub proof fn law_found_contents_have_the_hash(
    before: LookupView,
    event: LookupEventView,
    contents: Seq<u8>,
)
    requires
        before.awaits(event),
        before.next(event) == (LookupView::Finished { data: Some(contents) }),
    ensures
        before matches LookupView::Reading { hash, .. } && sha256_text(contents) == hash,
{
}

/// A lookup finds exactly what `found_in` says, and a file whose contents do not
/// have the hash is removed.
pub proof fn law_lookup_outcome(files: Map<Seq<u8>, Seq<u8>>, dir: PathView, hash: Seq<char>)
    ensures
        match found_in(files, dir, hash) {
            Some(data) => looked_up(files, dir, hash) == (LookupView::Finished { data: Some(data) }),
            None => if files.dom().contains(unix_path(cached_file(dir, hash))) {
                &&& looked_up(files, dir, hash) == (LookupView::Removing {
                    path: cached_file(dir, hash),
                })
                &&& looked_up(files, dir, hash).next(LookupEventView::Removed) == (
                LookupView::Finished { data: None })
            } else {
                looked_up(files, dir, hash) == (LookupView::Finished { data: None })
            },
        },
{
}

/// Under a hash that is not 64 hexadecimal digits with letters in lower case,
/// nothing is ever found: not among any files, and not by a lookup whose actions
/// have any outcomes at all.
pub proof fn law_malformed_hash_is_never_found(
    dir: Option<PathView>,
    hash: Seq<char>,
    exists: bool,
    regular: Option<bool>,
    data: Option<Seq<u8>>,
)
    requires
        hash.len() != 64 || !is_hex_text(hash),
    ensures
        LookupView::start(dir, hash).next(LookupEventView::Checked { exists }).next(
            LookupEventView::Inspected { regular },
        ).next(LookupEventView::Content { data }).next(LookupEventView::Removed) == (
        LookupView::Finished { data: None }),
        forall|files: Map<Seq<u8>, Seq<u8>>, at: PathView| #[trigger]
            found_in(files, at, hash) is None,
{
    assert forall|contents: Seq<u8>| #[trigger] sha256_text(contents) != hash by {
        law_hash_is_64_hex_digits(contents);
    }
}

proof fn lemma_after_save(
    files: Map<Seq<u8>, Seq<u8>>,
    dir: PathView,
    hash: Seq<char>,
    data: Seq<u8>,
)
    ensures
        after_ops(files, save_ops(dir, hash, data)) == files.remove(
            unix_path(staging_file(dir, hash)),
        ).insert(unix_path(cached_file(dir, hash)), data),
{
    let ops = save_ops(dir, hash, data);
    reveal_with_fuel(after_ops, 3);
    assert(ops.drop_last() =~= seq![ops[0]]);
    assert(ops.drop_last().drop_last() =~= seq![]);
    assert(after_ops(files, ops) =~= files.remove(unix_path(staging_file(dir, hash))).insert(
        unix_path(cached_file(dir, hash)),
        data,
    ));
}

/// A binary that was saved under its hash is found again, whatever was there
/// before.
pub proof fn law_saved_binary_is_found(
    files: Map<Seq<u8>, Seq<u8>>,
    dir: PathView,
    data: Seq<u8>,
)
    ensures
        found_in(
            after_ops(files, save_ops(dir, sha256_text(data), data)),
            dir,
            sha256_text(data),
        ) == Some(data),
{
    lemma_after_save(files, dir, sha256_text(data), data);
}

/// A binary that was saved under a hash that is not its own is never found.
pub proof fn law_mislabelled_binary_is_not_found(
    files: Map<Seq<u8>, Seq<u8>>,
    dir: PathView,
    hash: Seq<char>,
    data: Seq<u8>,
)
    requires
        hash != sha256_text(data),
    ensures
        found_in(after_ops(files, save_ops(dir, hash, data)), dir, hash) is None,
{
    lemma_after_save(files, dir, hash, data);
}

/// To save a binary under a hash that holds no `/`, and so in the cache directory
/// itself, changes nothing in what is found under any other hash.
pub proof fn law_saving_keeps_other_binaries(
    files: Map<Seq<u8>, Seq<u8>>,
    dir: PathView,
    hash: Seq<char>,
    data: Seq<u8>,
    other: Seq<char>,
)
    requires
        !hash.contains('/'),
        other != hash,
    ensures
        found_in(after_ops(files, save_ops(dir, hash, data)), dir, other) == found_in(
            files,
            dir,
            other,
        ),
{
    lemma_after_save(files, dir, hash, data);
    law_staging_is_never_looked_up(dir, hash, other);
    if unix_path(cached_file(dir, hash)) == unix_path(cached_file(dir, other)) {
        law_cached_files_are_distinct(dir, hash, other);
    }
}

/// The path of a cached binary is one name joined to the cache directory, made of
/// the hash alone, and the path at which it is written first is that path with
/// the extension `tmp`.
pub proof fn law_cache_paths(dir: PathView, hash: Seq<char>)
    ensures
        cached_file(dir, hash) == (PathView {
            base: dir.base,
            ops: dir.ops + seq![PathOp::Join { name: "libscylla_driver_"@ + hash + ".so"@ }],
        }),
        staging_file(dir, hash) == (PathView {
            base: dir.base,
            ops: dir.ops + seq![
                PathOp::Join { name: "libscylla_driver_"@ + hash + ".so"@ },
                PathOp::WithExtension { extension: "tmp"@ },
            ],
        }),
{
    let join = PathOp::Join { name: "libscylla_driver_"@ + hash + ".so"@ };
    let extend = PathOp::WithExtension { extension: "tmp"@ };
    assert(cached_file(dir, hash).ops =~= dir.ops + seq![join]);
    assert(staging_file(dir, hash).ops =~= dir.ops + seq![join, extend]);
}

/// The cache directory is the configured one, as it is, wherever one is
/// configured; without one it is the default one below the home directory; and
/// without either there is none.
pub proof fn law_cache_dir(configured: Seq<char>, home: Option<Seq<u8>>, home_dir: Seq<u8>)
    ensures
        cache_dir_of(Some(configured), home) == Some(
            PathView { base: encode_utf8(configured), ops: seq![] },
        ),
        cache_dir_of(None, Some(home_dir)) == Some(
            PathView {
                base: home_dir,
                ops: seq![PathOp::Join { name: ".cache/scylla-driver"@ }],
            },
        ),
        cache_dir_of(None, None) is None,
{
    assert(PathView::given(home_dir).join(".cache/scylla-driver"@).ops =~= seq![
        PathOp::Join { name: ".cache/scylla-driver"@ },
    ]);
}

/// A cache directory that exists is left as it is; one that does not is created
/// and then closed to all but its owner, and nothing else is done.
pub proof fn law_prepare_makes_a_private_dir(dir: PathView)
    ensures
        prepare_ops(dir, true).len() == 0,
        prepare_ops(dir, false).len() == 2,
        prepare_ops(dir, false)[0] == (FileOp::CreateDir { path: dir }),
        prepare_ops(dir, false)[1] == (FileOp::SetMode { path: dir, mode: 0o700 }),
{
}

/// A save is one write and one move, whatever the directory, the hash and the
/// data: all of the data are written at the path with the extension `tmp`, and
/// from there the file is moved to the place of the binary. It makes no directory
/// and sets no permission bits.
pub proof fn law_save_writes_and_moves(dir: PathView, hash: Seq<char>, data: Seq<u8>)
    ensures
        ({
            let join = PathOp::Join { name: "libscylla_driver_"@ + hash + ".so"@ };
            let extend = PathOp::WithExtension { extension: "tmp"@ };
            let place = PathView { base: dir.base, ops: dir.ops + seq![join] };
            let aside = PathView { base: dir.base, ops: dir.ops + seq![join, extend] };
            &&& save_ops(dir, hash, data).len() == 2
            &&& save_ops(dir, hash, data)[0] == (FileOp::Write { path: aside, data })
            &&& save_ops(dir, hash, data)[1] == (FileOp::Rename { from: aside, to: place })
        }),
        forall|i: int|
            0 <= i < save_ops(dir, hash, data).len() ==> {
                ||| #[trigger] save_ops(dir, hash, data)[i] is Write
                ||| save_ops(dir, hash, data)[i] is Rename
            },
{
    law_cache_paths(dir, hash);
}

/// The view of a step is the same change at the same paths, with the same data
/// and bits, and the steps are viewed one for one, in order.
pub proof fn law_step_views(
    path: FilePath,
    other: FilePath,
    mode: u32,
    data: Vec<u8>,
    steps: Seq<FileStep>,
)
    ensures
        (FileStep::CreateDir { path })@ == (FileOp::CreateDir { path: path@ }),
        (FileStep::SetMode { path, mode })@ == (FileOp::SetMode { path: path@, mode }),
        (FileStep::Write { path, data })@ == (FileOp::Write { path: path@, data: data@ }),
        (FileStep::Rename { from: path, to: other })@ == (FileOp::Rename {
            from: path@,
            to: other@,
        }),
        ops_of(steps).len() == steps.len(),
        forall|i: int| 0 <= i < steps.len() ==> #[trigger] ops_of(steps)[i] == steps[i]@,
{
}

/// The view of an event tells the same of the same action, and what is missing is
/// missing in the view.
pub proof fn law_lookup_event_view(
    exists: bool,
    regular: Option<bool>,
    data: Vec<u8>,
    text: &str,
    bytes: &[u8],
    path: &FilePath,
)
    ensures
        (LookupEvent::Checked { exists })@ == (LookupEventView::Checked { exists }),
        (LookupEvent::Inspected { regular })@ == (LookupEventView::Inspected { regular }),
        (LookupEvent::Content { data: Some(data) })@ == (LookupEventView::Content {
            data: Some(data@),
        }),
        (LookupEvent::Content { data: None })@ == (LookupEventView::Content { data: None }),
        LookupEvent::Removed@ == LookupEventView::Removed,
        text_view(Some(text)) == Some(text@) && text_view(None) is None,
        bytes_view(Some(bytes)) == Some(bytes@) && bytes_view(None) is None,
        path_view(Some(path)) == Some(path@) && path_view(None) is None,
{
}

/// A lookup looks at the one path of the hash in the cache directory, and gives
/// back what a regular file there holds exactly when the text of its SHA-256 hash
/// is the hash that was looked for. Contents with another hash have the file
/// removed, and then nothing is found; nor is anything where there is no file, or
/// none that is regular, or none that can be read, nor without a directory.
pub proof fn law_lookup_step_by_step(
    dir: PathView,
    hash: Seq<char>,
    path: PathView,
    data: Seq<u8>,
    regular: Option<bool>,
)
    ensures
        LookupView::start(None, hash) == (LookupView::Finished { data: None }),
        LookupView::start(Some(dir), hash) == (LookupView::Checking {
            path: PathView {
                base: dir.base,
                ops: dir.ops + seq![PathOp::Join { name: "libscylla_driver_"@ + hash + ".so"@ }],
            },
            hash,
        }),
        (LookupView::Checking { path, hash }).next(LookupEventView::Checked { exists: false }) == (
        LookupView::Finished { data: None }),
        (LookupView::Checking { path, hash }).next(LookupEventView::Checked { exists: true }) == (
        LookupView::Inspecting { path, hash }),
        (LookupView::Inspecting { path, hash }).next(
            LookupEventView::Inspected { regular: Some(true) },
        ) == (LookupView::Reading { path, hash }),
        regular != Some(true) ==> (LookupView::Inspecting { path, hash }).next(
            LookupEventView::Inspected { regular },
        ) == (LookupView::Finished { data: None }),
        (LookupView::Reading { path, hash }).next(LookupEventView::Content { data: None }) == (
        LookupView::Finished { data: None }),
        hash == sha256_text(data) ==> (LookupView::Reading { path, hash }).next(
            LookupEventView::Content { data: Some(data) },
        ) == (LookupView::Finished { data: Some(data) }),
        hash != sha256_text(data) ==> (LookupView::Reading { path, hash }).next(
            LookupEventView::Content { data: Some(data) },
        ) == (LookupView::Removing { path }),
        (LookupView::Removing { path }).next(LookupEventView::Removed) == (LookupView::Finished {
            data: None,
        }),
{
    law_cache_paths(dir, hash);
}

/// Contents are judged by their hash alone.
pub proof fn law_judgement(
    path: PathView,
    hash: Seq<char>,
    data: Seq<u8>,
    actual_hash: Seq<char>,
)
    ensures
        actual_hash == hash ==> LookupView::judged(path, hash, data, actual_hash) == (
        LookupView::Finished { data: Some(data) }),
        actual_hash != hash ==> LookupView::judged(path, hash, data, actual_hash) == (
        LookupView::Removing { path }),
{
}

/// Each stage of a lookup awaits the outcome of its own action and no other, a
/// lookup that is over awaits nothing, and an event of another action changes
/// nothing. Every event can be taken in but contents too long to be hashed.
pub proof fn law_only_awaited_lookup_events_count(lookup: LookupView, event: LookupEventView)
    ensures
        lookup.takes(event) <==> !(lookup is Reading && event is Content
            && event->Content_data is Some && event->Content_data->0.len() >= SHA256_LENGTH_LIMIT),
        lookup.awaits(event) <==> lookup.takes(event) && {
            ||| lookup is Checking && event is Checked
            ||| lookup is Inspecting && event is Inspected
            ||| lookup is Reading && event is Content
            ||| lookup is Removing && event is Removed
        },
        lookup.takes(event) && !lookup.awaits(event) ==> lookup.next(event) == lookup,
{
}

} // verus!
