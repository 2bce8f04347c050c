//! Filesystem paths, held as strings.
//!
//! Joining and absoluteness are written here against their documented
//! statements; the other component-wise operations of `std::path` are
//! called through the wrappers below; what the documentation of
//! `std::path` states exactly is stated in their contracts, and the rest is
//! named by a spec function without a body. Paths are Unix paths: `/` is
//! the only separator.
use vstd::prelude::*;

use crate::text::{chars_of, pieces, same_chars, split_on};

verus! {

/// `Path::starts_with`: `base` is a prefix of `path`, whole components only.
pub uninterp spec fn component_prefix(path: Seq<char>, base: Seq<char>) -> bool;


/// `Path::parent` of `p`.
pub uninterp spec fn parent_part(p: Seq<char>) -> Option<Seq<char>>;

/// `Path::file_name` of `p`.
pub uninterp spec fn final_part(p: Seq<char>) -> Option<Seq<char>>;

/// `Path::canonicalize` answered `answer` (the canonical path, or the
/// error's message, a canonical path that is not UTF-8 counting as an
/// error) when it was called on `p`. This records on which path
/// the call was made; it is a relation, not a function of `p`, since the
/// answer depends on the filesystem at the time of the call.
pub uninterp spec fn canonical_answer(p: Seq<char>, answer: Result<Seq<char>, Seq<char>>) -> bool;

/// `Path::exists` answered `answer` when it was called on `p`; a relation,
/// as for `canonical_answer`.
pub uninterp spec fn exists_answer(p: Seq<char>, answer: bool) -> bool;

/// A Unix path is absolute when it starts at the root `/`.
pub open spec fn is_absolute(p: Seq<char>) -> bool {
    p.len() > 0 && p[0] == '/'
}

/// `Path::join` of `base` and `p` on Unix, as `PathBuf::push` documents it:
/// an absolute `p` replaces `base`; otherwise `p` follows `base`, after a
/// `/` unless `base` is empty or already ends in one.
pub open spec fn joined(base: Seq<char>, p: Seq<char>) -> Seq<char> {
    if is_absolute(p) {
        p
    } else if base.len() == 0 || base.last() == '/' {
        base + p
    } else {
        base + seq!['/'] + p
    }
}

/// Some component of `p` is `..`: on Unix the components of a path are its
/// pieces between `/`, and the parent-directory component is exactly `..`.
pub open spec fn has_parent_component(p: Seq<char>) -> bool {
    exists|i: int| 0 <= i < pieces(p, '/').len() && #[trigger] pieces(p, '/')[i] == ".."@
}

/// Whether some component of `p` is `..`.
pub fn contains_parent_component(p: &str) -> (res: bool)
    ensures
        res == has_parent_component(p@),
{
    let cs = chars_of(p);
    let parts = split_on(cs.as_slice(), '/');
    let dots = chars_of("..");
    let mut i: usize = 0;
    while i < parts.len()
        invariant
            crate::text::views_match(parts@, pieces(p@, '/')),
            dots@ == ".."@,
            i <= parts@.len(),
            forall|k: int| 0 <= k < i ==> #[trigger] pieces(p@, '/')[k] != ".."@,
        decreases parts.len() - i,
    {
        if same_chars(parts[i].as_slice(), dots.as_slice()) {
            assert(pieces(p@, '/')[i as int] == ".."@);
            return true;
        }
        i = i + 1;
    }
    false
}

/// `Path::is_absolute` on Unix: the path starts with the root `/`.
pub(crate) fn path_is_absolute(p: &str) -> (res: bool)
    ensures
        res == is_absolute(p@),
{
    let pc = chars_of(p);
    pc.len() > 0 && pc[0] == '/'
}

/// Calls `Path::starts_with`; its result is named `component_prefix`.
#[verifier::external_body]
pub(crate) fn path_starts_with(path: &str, base: &str) -> (res: bool)
    ensures
        res == component_prefix(path@, base@),
{
    std::path::Path::new(path).starts_with(base)
}

/// `Path::join` of `base` and `p` (see `joined`).
pub(crate) fn path_join(base: &str, p: &str) -> (res: String)
    ensures
        res@ == joined(base@, p@),
        is_absolute(p@) ==> res@ == p@,
{
    let pc = chars_of(p);
    if pc.len() > 0 && pc[0] == '/' {
        return p.to_owned();
    }
    let bc = chars_of(base);
    let mut res = base.to_owned();
    if !(bc.len() == 0 || bc[bc.len() - 1] == '/') {
        crate::text::push_char(&mut res, '/');
    }
    res.append(p);
    res
}

/// Calls `Path::parent`, whose result is named `parent_part`.
#[verifier::external_body]
pub(crate) fn path_parent(p: &str) -> (res: Option<String>)
    ensures
        match res {
            Some(q) => parent_part(p@) == Some(q@),
            None => parent_part(p@) is None,
        },
{
    match std::path::Path::new(p).parent() {
        Some(q) => Some(q.to_string_lossy().into_owned()),
        None => None,
    }
}

/// Calls `Path::file_name`, whose result is named `final_part`.
#[verifier::external_body]
pub(crate) fn path_file_name(p: &str) -> (res: Option<String>)
    ensures
        match res {
            Some(q) => final_part(p@) == Some(q@),
            None => final_part(p@) is None,
        },
{
    match std::path::Path::new(p).file_name() {
        Some(q) => Some(q.to_string_lossy().into_owned()),
        None => None,
    }
}

/// Calls `Path::exists`. What it returns depends on the filesystem; the
/// contract records only that it was the answer for `p`.
#[verifier::external_body]
pub(crate) fn path_exists(p: &str) -> (res: bool)
    ensures
        exists_answer(p@, res),
{
    std::path::Path::new(p).exists()
}

/// Calls `Path::canonicalize`; an error becomes its message. The result
/// depends on the filesystem; as documented, a canonical path is absolute.
/// The contract records that the answer was given for `p`. A canonical
/// path that is not UTF-8 cannot be held as a string, and is an error too,
/// so no comparison is ever made on a lossy copy of it.
#[verifier::external_body]
pub(crate) fn canonical_path(p: &str) -> (res: Result<String, String>)
    ensures
        res matches Ok(c) ==> is_absolute(c@),
        match res {
            Ok(c) => canonical_answer(p@, Ok(c@)),
            Err(e) => canonical_answer(p@, Err(e@)),
        },
{
    match std::path::Path::new(p).canonicalize() {
        Ok(c) => match c.into_os_string().into_string() {
            Ok(text) => Ok(text),
            Err(raw) => Err(format!("canonical path is not valid UTF-8: {}", raw.to_string_lossy())),
        },
        Err(e) => Err(e.to_string()),
    }
}

} // verus!
