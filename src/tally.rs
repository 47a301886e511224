//! Byte and line counts of description / program file pairs: the counts of
//! one text, their sums, and the path of a file's counterpart in the other tree.

use vstd::prelude::*;
use crate::splice::{join_path, path_joined};
use crate::audit::opt_view;
use crate::text::{lines, lines_spec};

verus! {

/// Bytes and lines of a text, or of several texts together.
#[derive(Clone, Copy, Debug, PartialEq, Eq, Structural)]
pub struct Stats {
    pub bytes: u64,
    pub lines: u64,
}

impl Stats {
    pub fn zero() -> (s: Stats)
        ensures
            s.bytes == 0 && s.lines == 0,
    {
        Stats { bytes: 0, lines: 0 }
    }

    /// The UTF-8 length of `text` and its number of lines, a last line
    /// without a line feed included.
    pub fn of_text(text: &str) -> (s: Stats)
        ensures
            s.bytes == text.len() as u64,
            s.lines == lines_spec(text@).len() as u64,
    {
        let n = text.len();
        let l = lines(text);
        proof {
            assert(l.deep_view().len() == l.len());
        }
        Stats { bytes: n as u64, lines: l.len() as u64 }
    }

    /// The two counts added, or `None` if a sum does not fit in `u64`.
    pub fn plus(self, other: Stats) -> (r: Option<Stats>)
        ensures
            match r {
                Some(s) => s.bytes == self.bytes + other.bytes && s.lines == self.lines + other.lines,
                None => self.bytes + other.bytes > u64::MAX || self.lines + other.lines > u64::MAX,
            },
    {
        if self.bytes > u64::MAX - other.bytes || self.lines > u64::MAX - other.lines {
            None
        } else {
            Some(Stats { bytes: self.bytes + other.bytes, lines: self.lines + other.lines })
        }
    }
}

/// `std::path::Path::strip_prefix` of the path `p` by `base` on the target platform.
pub uninterp spec fn path_relative(p: Seq<char>, base: Seq<char>) -> Option<Seq<char>>;

/// `std::path::PathBuf::set_extension` of the path `p` to `ext` on the target platform.
pub uninterp spec fn path_with_extension(p: Seq<char>, ext: Seq<char>) -> Seq<char>;

/// Relies on `std::path::Path::strip_prefix`; a part of a UTF-8 path is UTF-8.
#[verifier::external_body]
fn relative_path(p: &str, base: &str) -> (r: Option<String>)
    ensures
        opt_view(r) == path_relative(p@, base@),
{
    std::path::Path::new(p).strip_prefix(base).ok().map(|q| q.to_string_lossy().into_owned())
}

/// Whether `s` holds no path separator (`/`, or `\` on some platforms).
pub open spec fn has_no_separator(s: Seq<char>) -> bool {
    forall|i: int| 0 <= i < s.len() ==> s[i] != '/' && s[i] != '\\'
}

/// Relies on `std::path::PathBuf::set_extension`, which panics on an
/// extension holding a path separator.
#[verifier::external_body]
fn with_extension(p: &str, ext: &str) -> (r: String)
    requires
        has_no_separator(ext@),
    ensures
        r@ == path_with_extension(p@, ext@),
{
    let mut q = std::path::PathBuf::from(p);
    q.set_extension(ext);
    q.to_string_lossy().into_owned()
}

/// The counterpart under `to_root` of the file `path` under `from_root`, with
/// the extension `ext`; `None` if `path` is not under `from_root`.
pub open spec fn counterpart_spec(path: Seq<char>, from_root: Seq<char>, to_root: Seq<char>, ext: Seq<char>) -> Option<Seq<char>> {
    match path_relative(path, from_root) {
        Some(rel) => Some(path_joined(to_root, path_with_extension(rel, ext))),
        None => None,
    }
}

fn counterpart(path: &str, from_root: &str, to_root: &str, ext: &str) -> (r: String)
    requires
        has_no_separator(ext@),
        path_relative(path@, from_root@) is Some,
    ensures
        Some(r@) == counterpart_spec(path@, from_root@, to_root@, ext@),
{
    let rel = relative_path(path, from_root).unwrap();
    let renamed = with_extension(rel.as_str(), ext);
    join_path(to_root, renamed.as_str())
}

/// The program file under `rs_root` that matches the description `md_path`
/// under `md_root`, which must lie under `md_root`.
pub fn build_rs_path(md_path: &str, md_root: &str, rs_root: &str) -> (r: String)
    requires
        path_relative(md_path@, md_root@) is Some,
    ensures
        Some(r@) == counterpart_spec(md_path@, md_root@, rs_root@, "rs"@),
{
    proof {
        reveal_strlit("rs");
    }
    counterpart(md_path, md_root, rs_root, "rs")
}

/// The description file under `md_root` that matches the program `rs_path`
/// under `rs_root`, which must lie under `rs_root`.
pub fn build_md_path(rs_path: &str, rs_root: &str, md_root: &str) -> (r: String)
    requires
        path_relative(rs_path@, rs_root@) is Some,
    ensures
        Some(r@) == counterpart_spec(rs_path@, rs_root@, md_root@, "md"@),
{
    proof {
        reveal_strlit("md");
    }
    counterpart(rs_path, rs_root, md_root, "md")
}

/// `build_rs_path` where `md_path` lies under `md_root`; `None` where it does not.
pub fn try_build_rs_path(md_path: &str, md_root: &str, rs_root: &str) -> (r: Option<String>)
    ensures
        opt_view(r) == counterpart_spec(md_path@, md_root@, rs_root@, "rs"@),
{
    if relative_path(md_path, md_root).is_some() {
        Some(build_rs_path(md_path, md_root, rs_root))
    } else {
        None
    }
}

/// `build_md_path` where `rs_path` lies under `rs_root`; `None` where it does not.
pub fn try_build_md_path(rs_path: &str, rs_root: &str, md_root: &str) -> (r: Option<String>)
    ensures
        opt_view(r) == counterpart_spec(rs_path@, rs_root@, md_root@, "md"@),
{
    if relative_path(rs_path, rs_root).is_some() {
        Some(build_md_path(rs_path, rs_root, md_root))
    } else {
        None
    }
}

} // verus!
