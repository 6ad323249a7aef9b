use std::collections::BTreeMap;
use std::path::{Path, PathBuf};

use driver_update::cache::{
    cache_dir, cached_path, load_cached, prepare_cache_dir, save_to_cache,
    staging_path, CacheLookup, FileStep, LookupAction, LookupEvent, NoCacheDir,
};
use driver_update::path::{FilePath, PathStep};
use driver_update::signature::sha256_hex;

type Files = BTreeMap<PathBuf, Vec<u8>>;

/// Has the path functions of this system make a path.
fn on_this_system(path: &FilePath) -> PathBuf {
    let mut made = PathBuf::from(String::from_utf8(path.base.clone()).unwrap());
    for step in &path.steps {
        made = match step {
            PathStep::Join { name } => made.join(name),
            PathStep::WithExtension { extension } => made.with_extension(extension),
        };
    }
    made
}

fn dir() -> FilePath {
    FilePath::given(b"/c")
}

fn run(files: &mut Files, steps: Vec<FileStep>) {
    for step in steps {
        match step {
            FileStep::CreateDir { .. } => {}
            FileStep::SetMode { .. } => {}
            FileStep::Write { path, data } => {
                files.insert(on_this_system(&path), data);
            }
            FileStep::Rename { from, to } => {
                let data = files.remove(&on_this_system(&from)).unwrap();
                files.insert(on_this_system(&to), data);
            }
        }
    }
}

fn look_up(files: &mut Files, dir: Option<&FilePath>, hash: &str) -> Option<Vec<u8>> {
    let mut lookup = load_cached(dir, hash);
    loop {
        let event = match lookup.action() {
            LookupAction::CheckExists { path } => {
                LookupEvent::Checked { exists: files.contains_key(&on_this_system(&path)) }
            }
            LookupAction::Inspect { .. } => LookupEvent::Inspected { regular: Some(true) },
            LookupAction::Read { path } => LookupEvent::Content { data: files.get(&on_this_system(&path)).cloned() },
            LookupAction::Remove { path } => {
                files.remove(&on_this_system(&path));
                LookupEvent::Removed
            }
            LookupAction::Stop => break,
        };
        assert!(lookup.awaits(&event));
        lookup = lookup.advance(event);
    }
    lookup.finish().unwrap()
}

#[test]
fn path_of_a_cached_binary() {
    let dir = FilePath::given(b"/c");
    let path = cached_path(&dir, "ab12");
    assert_eq!(path.base, b"/c".to_vec());
    assert_eq!(
        path.steps,
        vec![PathStep::Join { name: "libscylla_driver_ab12.so".to_string() }]
    );
    assert_eq!(
        staging_path(&dir, "ab12").steps,
        vec![
            PathStep::Join { name: "libscylla_driver_ab12.so".to_string() },
            PathStep::WithExtension { extension: "tmp".to_string() },
        ]
    );
    assert_eq!(on_this_system(&path), Path::new("/c").join("libscylla_driver_ab12.so"));
}

#[test]
fn paths_on_this_system() {
    let dirs = ["", "/", "c", "/a/b", "/a/b/", "../x//"];
    let hashes = ["", "ab12", "a.b", "a.", "x/", "x/y", "x/..", "x/.", "x/.y", "é"];
    for dir in dirs {
        for hash in hashes {
            let path = Path::new(dir).join(format!("libscylla_driver_{hash}.so"));
            let dir = FilePath::given(dir.as_bytes());
            assert_eq!(on_this_system(&cached_path(&dir, hash)), path);
            assert_eq!(on_this_system(&staging_path(&dir, hash)), path.with_extension("tmp"));
        }
    }
}

#[test]
fn cache_directory() {
    assert_eq!(cache_dir(Some("/tmp/c"), Some(b"/home/u")), Ok(FilePath::given(b"/tmp/c")));
    assert_eq!(cache_dir(Some("/tmp/c"), None), Ok(FilePath::given(b"/tmp/c")));
    assert_eq!(
        cache_dir(None, Some(b"/home/u")),
        Ok(FilePath::given(b"/home/u").join(".cache/scylla-driver"))
    );
    assert_eq!(
        on_this_system(&cache_dir(None, Some(b"/home/u")).unwrap()),
        Path::new("/home/u/.cache/scylla-driver")
    );
    assert_eq!(
        on_this_system(&cache_dir(None, Some(b"")).unwrap()),
        Path::new(".cache/scylla-driver")
    );
    assert_eq!(cache_dir(None, None), Err(NoCacheDir));
    assert_eq!(NoCacheDir.message(), "Cannot determine cache directory");
}

#[test]
fn new_cache_directory_is_private() {
    assert_eq!(prepare_cache_dir(&dir(), true), Vec::new());
    assert_eq!(
        prepare_cache_dir(&dir(), false),
        vec![
            FileStep::CreateDir { path: dir() },
            FileStep::SetMode { path: dir(), mode: 0o700 },
        ]
    );
}

#[test]
fn save_writes_aside_first() {
    assert_eq!(
        save_to_cache(&dir(), "ab", b"data"),
        vec![
            FileStep::Write { path: staging_path(&dir(), "ab"), data: b"data".to_vec() },
            FileStep::Rename {
                from: staging_path(&dir(), "ab"),
                to: cached_path(&dir(), "ab")
            },
        ]
    );
}

#[test]
fn saved_binary_is_found() {
    let mut files = Files::new();
    let hash = sha256_hex(b"driver");
    run(&mut files, save_to_cache(&dir(), &hash, b"driver"));
    assert_eq!(look_up(&mut files, Some(&dir()), &hash), Some(b"driver".to_vec()));
    assert_eq!(files.len(), 1);

    let other = sha256_hex(b"other driver");
    assert_eq!(look_up(&mut files, Some(&dir()), &other), None);
    run(&mut files, save_to_cache(&dir(), &other, b"other driver"));
    assert_eq!(look_up(&mut files, Some(&dir()), &hash), Some(b"driver".to_vec()));
    assert_eq!(look_up(&mut files, Some(&dir()), &other), Some(b"other driver".to_vec()));
    assert_eq!(look_up(&mut files, Some(&FilePath::given(b"/d")), &hash), None);
    assert_eq!(look_up(&mut files, None, &hash), None);
}

#[test]
fn corrupt_binary_is_removed() {
    let mut files = Files::new();
    let hash = sha256_hex(b"driver");
    run(&mut files, save_to_cache(&dir(), &hash, b"driwer"));
    assert_eq!(files.len(), 1);
    assert_eq!(look_up(&mut files, Some(&dir()), &hash), None);
    assert_eq!(files.len(), 0);
}

#[test]
fn only_regular_files_are_read() {
    for regular in [None, Some(false)] {
        let lookup = load_cached(Some(&dir()), "ab");
        let lookup = lookup.advance(LookupEvent::Checked { exists: true });
        let lookup = lookup.advance(LookupEvent::Inspected { regular });
        assert!(matches!(lookup.action(), LookupAction::Stop));
        assert_eq!(lookup.finish(), Some(None));
    }
}

#[test]
fn unreadable_file_is_not_found() {
    let lookup = load_cached(Some(&dir()), "ab");
    assert!(!lookup.awaits(&LookupEvent::Removed));
    let lookup = lookup.advance(LookupEvent::Checked { exists: true });
    let lookup = lookup.advance(LookupEvent::Inspected { regular: Some(true) });
    let lookup = lookup.advance(LookupEvent::Content { data: None });
    assert_eq!(lookup.finish(), Some(None));
}

#[test]
fn lookup_that_is_not_over() {
    assert_eq!(load_cached(Some(&dir()), "ab").finish(), None);
}

#[test]
fn judgement_of_contents() {
    let hit = CacheLookup::judge(
        FilePath::given(b"/c/f"),
        "h1".to_string(),
        b"x".to_vec(),
        "h1".to_string(),
    );
    assert_eq!(hit.finish(), Some(Some(b"x".to_vec())));
    let miss = CacheLookup::judge(
        FilePath::given(b"/c/f"),
        "h1".to_string(),
        b"x".to_vec(),
        "h2".to_string(),
    );
    match miss.action() {
        LookupAction::Remove { path } => assert_eq!(path, FilePath::given(b"/c/f")),
        other => panic!("unexpected {:?}", other),
    }
}

#[test]
fn paths_of_different_hashes_differ() {
    let hashes = ["", "a", "ab", "a.so", "a.tmp", "a.so.tmp", "x/", "x/.so"];
    for (i, first) in hashes.iter().enumerate() {
        for (j, second) in hashes.iter().enumerate() {
            let same = cached_path(&dir(), first) == cached_path(&dir(), second);
            assert_eq!(same, i == j);
            assert_ne!(staging_path(&dir(), first), cached_path(&dir(), second));
        }
    }
}

#[test]
fn malformed_hash_is_never_found() {
    let hash = sha256_hex(b"driver");
    let upper = hash.to_uppercase();
    assert_ne!(upper, hash);
    for malformed in ["", "ab12", &hash[..63], &format!("{hash}0"), &upper, &"g".repeat(64)] {
        let mut files = Files::new();
        run(&mut files, save_to_cache(&dir(), malformed, b"driver"));
        assert_eq!(look_up(&mut files, Some(&dir()), malformed), None);
        assert_eq!(files.len(), 0);
    }
}

#[test]
fn path_operations_are_kept_in_order() {
    let path = FilePath::given(b"a").join("b/c.x").with_extension("y");
    assert_eq!(path.copy(), path);
    assert_eq!(on_this_system(&path), Path::new("a/b/c.y"));
    assert_eq!(on_this_system(&FilePath::given(b"a").join("/b")), Path::new("/b"));
}

#[test]
fn events_that_were_not_asked_for_change_nothing() {
    let lookup = load_cached(Some(&dir()), "ab").advance(LookupEvent::Removed);
    assert!(matches!(lookup.action(), LookupAction::CheckExists { .. }));
    let over = lookup.advance(LookupEvent::Checked { exists: false });
    assert_eq!(over.advance(LookupEvent::Checked { exists: true }).finish(), Some(None));
}
