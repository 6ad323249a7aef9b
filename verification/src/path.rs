//! Paths, put together from what the host program knows.
//!
//! How a name is joined to a directory differs from system to system, so a path
//! stays a [`FilePath`] here: the bytes that the host gave, and what is to be done
//! to them, in order. The host has the path functions of its system do it.
//! [`unix_path`] says what comes of it where `/` stands between the names.

use vstd::prelude::*;
use vstd::slice::slice_to_vec;
use vstd::utf8::{encode_scalar, encode_utf8};

verus! {

/// What stands between the names of a Unix path.
pub const SEPARATOR: u8 = 0x2f;

/// What stands before the extension of a name.
pub const DOT: u8 = 0x2e;

/// One operation on a path.
#[derive(Debug, Clone, PartialEq, Eq)]
pub enum PathStep {
    /// Take this path from the directory so far, as `Path::join` does.
    Join { name: String },
    /// Replace the extension, as `Path::with_extension` does.
    WithExtension { extension: String },
}

/// A path: the bytes of a path of the host, and the operations on it, in order.
#[derive(Debug, Clone, PartialEq, Eq)]
pub struct FilePath {
    pub base: Vec<u8>,
    pub steps: Vec<PathStep>,
}

/// A [`PathStep`] with its text as a sequence of characters.
pub enum PathOp {
    Join { name: Seq<char> },
    WithExtension { extension: Seq<char> },
}

/// A [`FilePath`] with its parts as sequences.
#[verifier::ext_equal]
pub struct PathView {
    pub base: Seq<u8>,
    pub ops: Seq<PathOp>,
}

impl View for PathStep {
    type V = PathOp;

    open spec fn view(&self) -> PathOp {
        match self {
            PathStep::Join { name } => PathOp::Join { name: name@ },
            PathStep::WithExtension { extension } => PathOp::WithExtension { extension: extension@ },
        }
    }
}

impl View for FilePath {
    type V = PathView;

    open spec fn view(&self) -> PathView {
        PathView { base: self.base@, ops: Seq::new(self.steps@.len(), |i: int| self.steps@[i]@) }
    }
}

impl PathView {
    /// A path of the host as it is.
    pub open spec fn given(base: Seq<u8>) -> PathView {
        PathView { base, ops: seq![] }
    }

    /// The path `name`, taken from this directory.
    pub open spec fn join(self, name: Seq<char>) -> PathView {
        PathView { base: self.base, ops: self.ops.push(PathOp::Join { name }) }
    }

    /// This path with another extension.
    pub open spec fn with_extension(self, extension: Seq<char>) -> PathView {
        PathView { base: self.base, ops: self.ops.push(PathOp::WithExtension { extension }) }
    }
}

fn copy_step(step: &PathStep) -> (copy: PathStep)
    ensures
        copy@ == step@,
{
    match step {
        PathStep::Join { name } => PathStep::Join { name: name.as_str().to_owned() },
        PathStep::WithExtension { extension } => PathStep::WithExtension {
            extension: extension.as_str().to_owned(),
        },
    }
}

impl FilePath {
    /// Takes a path of the host as it is.
    pub fn given(base: &[u8]) -> (path: FilePath)
        ensures
            path@ == PathView::given(base@),
            path.base@ == base@ && path.steps@.len() == 0,
    {
        let path = FilePath { base: slice_to_vec(base), steps: Vec::new() };
        assert(path@ =~= PathView::given(base@));
        path
    }

    /// The same path once more.
    pub fn copy(&self) -> (path: FilePath)
        ensures
            path@ == self@,
            path.base@ == self.base@ && path.steps@.len() == self.steps@.len(),
            forall|i: int|
                0 <= i < self.steps@.len() ==> (#[trigger] path.steps@[i])@ == self.steps@[i]@,
    {
        let mut steps: Vec<PathStep> = Vec::new();
        let mut i: usize = 0;
        while i < self.steps.len()
            invariant
                i <= self.steps@.len(),
                steps@.len() == i,
                forall|j: int| 0 <= j < i ==> (#[trigger] steps@[j])@ == self.steps@[j]@,
            decreases self.steps@.len() - i,
        {
            steps.push(copy_step(&self.steps[i]));
            i = i + 1;
        }
        let path = FilePath { base: slice_to_vec(self.base.as_slice()), steps };
        assert(path@ =~= self@);
        path
    }

    /// Takes the path `name` from this directory.
    pub fn join(&self, name: &str) -> (path: FilePath)
        ensures
            path@ == self@.join(name@),
            path.base@ == self.base@ && path.steps@.len() == self.steps@.len() + 1,
            path.steps@.last() matches PathStep::Join { name: last } && last@ == name@,
    {
        let mut path = self.copy();
        path.steps.push(PathStep::Join { name: name.to_owned() });
        assert(path@ =~= self@.join(name@));
        path
    }

    /// Replaces the extension of the path.
    pub fn with_extension(&self, extension: &str) -> (path: FilePath)
        ensures
            path@ == self@.with_extension(extension@),
            path.base@ == self.base@ && path.steps@.len() == self.steps@.len() + 1,
            path.steps@.last() matches PathStep::WithExtension { extension: last } && last@
                == extension@,
    {
        let mut path = self.copy();
        path.steps.push(PathStep::WithExtension { extension: extension.to_owned() });
        assert(path@ =~= self@.with_extension(extension@));
        path
    }
}

/// The path `name`, taken from the directory `dir`, where `/` stands between the
/// names: an absolute path stands for itself.
pub open spec fn unix_join(dir: Seq<u8>, name: Seq<u8>) -> Seq<u8> {
    if name.len() > 0 && name[0] == SEPARATOR {
        name
    } else if dir.len() == 0 || dir.last() == SEPARATOR {
        dir + name
    } else {
        dir.push(SEPARATOR) + name
    }
}

/// Where the extension of the last name in the path begins, with its dot: at the
/// last dot in the name, if that is not the first character of the name.
pub open spec fn extension_start(path: Seq<u8>) -> Option<nat>
    decreases path.len(),
{
    if path.len() == 0 || path.last() == SEPARATOR {
        None
    } else if path.last() == DOT {
        if path.len() == 1 || path[path.len() - 2] == SEPARATOR {
            None
        } else {
            Some((path.len() - 1) as nat)
        }
    } else {
        extension_start(path.drop_last())
    }
}

/// The path with another extension. It is meant for a path that ends in a name, and
/// in one that is not a single dot up to its extension.
pub open spec fn unix_with_extension(path: Seq<u8>, extension: Seq<u8>) -> Seq<u8>
    recommends
        path.len() > 0,
        path.last() != SEPARATOR,
        extension_start(path) matches Some(start) ==> path[start - 1] != DOT || (start > 1
            && path[start - 2] != SEPARATOR),
{
    match extension_start(path) {
        Some(start) => path.take(start as int).push(DOT) + extension,
        None => path.push(DOT) + extension,
    }
}

/// The bytes of a path on a system where `/` stands between the names.
pub open spec fn unix_path(path: PathView) -> Seq<u8>
    decreases path.ops.len(),
{
    if path.ops.len() == 0 {
        path.base
    } else {
        let before = unix_path(PathView { base: path.base, ops: path.ops.drop_last() });
        match path.ops.last() {
            PathOp::Join { name } => unix_join(before, encode_utf8(name)),
            PathOp::WithExtension { extension } => unix_with_extension(
                before,
                encode_utf8(extension),
            ),
        }
    }
}

/// On a Unix path the operations act one after the other.
pub proof fn law_unix_path_by_steps(path: PathView, base: Seq<u8>, text: Seq<char>)
    ensures
        unix_path(PathView::given(base)) == base,
        unix_path(path.join(text)) == unix_join(unix_path(path), encode_utf8(text)),
        unix_path(path.with_extension(text)) == unix_with_extension(
            unix_path(path),
            encode_utf8(text),
        ),
{
    assert(path.join(text).ops.drop_last() =~= path.ops);
    assert(path.with_extension(text).ops.drop_last() =~= path.ops);
    assert(PathView { base: path.base, ops: path.ops } == path);
}

/// The encoding of two texts put together is that of the one and that of the
/// other.
pub(crate) proof fn lemma_encode_concat(first: Seq<char>, second: Seq<char>)
    ensures
        encode_utf8(first + second) == encode_utf8(first) + encode_utf8(second),
    decreases first.len(),
{
    if first.len() == 0 {
        assert(first + second =~= second);
        assert(encode_utf8(first) + encode_utf8(second) =~= encode_utf8(second));
    } else {
        lemma_encode_concat(first.drop_first(), second);
        assert((first + second).drop_first() =~= first.drop_first() + second);
        assert(encode_scalar(first[0] as u32) + (encode_utf8(first.drop_first()) + encode_utf8(
            second,
        )) =~= encode_utf8(first) + encode_utf8(second));
    }
}

/// A text that does not end in `/` is encoded in bytes that do not.
pub(crate) proof fn lemma_last_byte(text: Seq<char>)
    requires
        text.len() > 0,
        text.last() != '/',
    ensures
        encode_utf8(text).len() > 0,
        encode_utf8(text).last() != SEPARATOR,
{
    let c = text.last() as u32;
    vstd::utf8::char_u32_cast(text.last(), c);
    assert(c != 0x2f);
    lemma_encode_concat(text.drop_last(), seq![text.last()]);
    assert(text.drop_last() + seq![text.last()] =~= text);
    assert(seq![text.last()].drop_first() =~= Seq::<char>::empty());
    reveal_with_fuel(encode_utf8, 2);
    assert(encode_utf8(seq![text.last()]) =~= encode_scalar(c));
    assert(c <= 0x7f && c != 0x2f ==> (c & 0x7f) as u8 != 0x2f) by (bit_vector);
    assert((0x80u8 | (c & 0x3f) as u8) != 0x2f) by (bit_vector);
    assert(encode_scalar(c).last() != SEPARATOR);
}

/// Where the extension `.so` of a name begins.
pub(crate) proof fn lemma_extension_start(stem: Seq<u8>)
    requires
        stem.len() > 0,
        stem.last() != SEPARATOR,
    ensures
        extension_start(stem + seq![DOT, 0x73u8, 0x6fu8]) == Some(stem.len()),
{
    let path = stem + seq![DOT, 0x73u8, 0x6fu8];
    assert(path.drop_last().drop_last() =~= stem.push(DOT));
    reveal_with_fuel(extension_start, 3);
}

/// The view of a path has its bytes and its operations, each with its text, in
/// order; an operation is put behind those that there are.
pub proof fn law_path_view(path: FilePath, view: PathView, base: Seq<u8>, text: String)
    ensures
        path@.base == path.base@,
        path@.ops.len() == path.steps@.len(),
        forall|i: int| 0 <= i < path.steps@.len() ==> #[trigger] path@.ops[i] == path.steps@[i]@,
        (PathStep::Join { name: text })@ == (PathOp::Join { name: text@ }),
        (PathStep::WithExtension { extension: text })@ == (PathOp::WithExtension {
            extension: text@,
        }),
        PathView::given(base) == (PathView { base, ops: seq![] }),
        view.join(text@) == (PathView {
            base: view.base,
            ops: view.ops + seq![PathOp::Join { name: text@ }],
        }),
        view.with_extension(text@) == (PathView {
            base: view.base,
            ops: view.ops + seq![PathOp::WithExtension { extension: text@ }],
        }),
{
    assert(view.ops + seq![PathOp::Join { name: text@ }] =~= view.join(text@).ops);
    assert(view.ops + seq![PathOp::WithExtension { extension: text@ }] =~= view.with_extension(
        text@,
    ).ops);
}

} // verus!
