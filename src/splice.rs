//! Loading a specification: `{!path!}` markers (references) are replaced, recursively, by
//! the content of the named file, up to a fixed nesting depth.  A relative
//! path is taken relative to the directory of the file that names it.
//!
//! The expansion reads files from a [`SourceFiles`] table; when a file it
//! needs is not in the table it answers with that file's path, so that the
//! caller can load it and ask again.

use vstd::prelude::*;
use crate::audit::opt_view;
use crate::text::{chars_of, slice_chars, string_of};

verus! {

/// Deepest nesting of references that is expanded.
pub const MAX_DEPTH: usize = 32;

/// What stands in place of a reference nested too deeply.
pub const TOO_DEEP: &'static str = "TOO MUCH NESTED INCLUDES";

/// Whether `std::path::Path::is_absolute` holds of the path `p` on the target platform.
pub uninterp spec fn path_is_absolute(p: Seq<char>) -> bool;

/// `std::path::Path::parent` of the path `p` on the target platform.
pub uninterp spec fn path_parent(p: Seq<char>) -> Option<Seq<char>>;

/// `std::path::Path::join` of `base` and `p` on the target platform.
pub uninterp spec fn path_joined(base: Seq<char>, p: Seq<char>) -> Seq<char>;

/// Relies on `std::path::Path::is_absolute`.
#[verifier::external_body]
fn is_absolute_path(p: &str) -> (r: bool)
    ensures
        r == path_is_absolute(p@),
{
    std::path::Path::new(p).is_absolute()
}

/// Relies on `std::path::Path::parent`; a parent of a UTF-8 path is UTF-8.
#[verifier::external_body]
pub(crate) fn parent_path(p: &str) -> (r: Option<String>)
    ensures
        opt_view(r) == path_parent(p@),
{
    std::path::Path::new(p).parent().map(|q| q.to_string_lossy().into_owned())
}

/// Relies on `std::path::Path::join`; joining UTF-8 paths gives a UTF-8 path.
#[verifier::external_body]
pub(crate) fn join_path(base: &str, p: &str) -> (r: String)
    ensures
        r@ == path_joined(base@, p@),
{
    std::path::Path::new(base).join(p).to_string_lossy().into_owned()
}

/// The path that the reference `inc`, found in the file `name`, refers to.
pub open spec fn resolve_spec(name: Seq<char>, inc: Seq<char>) -> Seq<char> {
    if path_is_absolute(inc) {
        inc
    } else {
        path_joined(
            match path_parent(name) {
                Some(dir) => dir,
                None => "."@,
            },
            inc,
        )
    }
}

pub fn resolve_reference(name: &str, inc: &str) -> (r: String)
    ensures
        r@ == resolve_spec(name@, inc@),
{
    if is_absolute_path(inc) {
        inc.to_owned()
    } else {
        match parent_path(name) {
            Some(dir) => join_path(dir.as_str(), inc),
            None => join_path(".", inc),
        }
    }
}

/// Files by path; the first entry with a path wins.
pub struct SourceFiles {
    pub entries: Vec<(String, String)>,
}

pub open spec fn lookup(entries: Seq<(String, String)>, name: Seq<char>) -> Option<Seq<char>>
    decreases entries.len(),
{
    if entries.len() == 0 {
        None
    } else if entries[0].0@ == name {
        Some(entries[0].1@)
    } else {
        lookup(entries.drop_first(), name)
    }
}

impl SourceFiles {
    pub open spec fn get_spec(&self, name: Seq<char>) -> Option<Seq<char>> {
        lookup(self.entries@, name)
    }

    pub fn new() -> (f: SourceFiles)
        ensures
            forall|n: Seq<char>| f.get_spec(n) is None,
    {
        SourceFiles { entries: Vec::new() }
    }

    /// Adds a file; a path already present keeps its first content.
    pub fn insert(&mut self, name: String, content: String)
        ensures
            forall|n: Seq<char>|
                #[trigger] final(self).get_spec(n) == if old(self).get_spec(n) is Some {
                    old(self).get_spec(n)
                } else if n == name@ {
                    Some(content@)
                } else {
                    None
                },
    {
        let ghost before = self.entries@;
        let ghost added = (name, content);
        self.entries.push((name, content));
        proof {
            assert(self.entries@ == before.push(added));
            assert forall|n: Seq<char>|
                #[trigger] self.get_spec(n) == if lookup(before, n) is Some {
                    lookup(before, n)
                } else if n == added.0@ {
                    Some(added.1@)
                } else {
                    None
                } by {
                lemma_lookup_push(before, added, n);
            }
        }
    }

    /// The content of the file `name`, if the table has it.
    pub fn get(&self, name: &str) -> (r: Option<&String>)
        ensures
            match r {
                Some(c) => self.get_spec(name@) == Some(c@),
                None => self.get_spec(name@) is None,
            },
    {
        let key = name.to_owned();
        let mut i: usize = 0;
        proof {
            assert(self.entries@.skip(0) =~= self.entries@);
        }
        while i < self.entries.len()
            invariant
                0 <= i <= self.entries.len(),
                key@ == name@,
                lookup(self.entries@, name@) == lookup(self.entries@.skip(i as int), name@),
            decreases self.entries.len() - i,
        {
            proof {
                assert(self.entries@.skip(i as int).drop_first() =~= self.entries@.skip(i as int + 1));
            }
            let found = self.entries[i].0.eq(&key);
            proof {
                assert(self.entries@.skip(i as int)[0] == self.entries@[i as int]);
                assert(found == (self.entries@[i as int].0@ == name@));
            }
            if found {
                return Some(&self.entries[i].1);
            }
            i = i + 1;
        }
        proof {
            assert(self.entries@.skip(i as int) =~= Seq::<(String, String)>::empty());
        }
        None
    }
}

proof fn lemma_lookup_push(entries: Seq<(String, String)>, e: (String, String), n: Seq<char>)
    ensures
        lookup(entries.push(e), n) == if lookup(entries, n) is Some {
            lookup(entries, n)
        } else if n == e.0@ {
            Some(e.1@)
        } else {
            None
        },
    decreases entries.len(),
{
    let pushed = entries.push(e);
    if entries.len() > 0 {
        assert(pushed[0] == entries[0]);
        assert(pushed.drop_first() =~= entries.drop_first().push(e));
        lemma_lookup_push(entries.drop_first(), e, n);
        assert(lookup(pushed, n) == if pushed[0].0@ == n {
            Some(pushed[0].1@)
        } else {
            lookup(pushed.drop_first(), n)
        });
        assert(lookup(entries, n) == if entries[0].0@ == n {
            Some(entries[0].1@)
        } else {
            lookup(entries.drop_first(), n)
        });
    } else {
        assert(pushed[0] == e);
        assert(pushed.drop_first() =~= Seq::<(String, String)>::empty());
    }
}

/// The first index at or after `from` where `a` is directly followed by `b`.
pub open spec fn find_pair(s: Seq<char>, a: char, b: char, from: int) -> Option<int>
    decreases s.len() - from,
{
    if from < 0 || from + 1 >= s.len() {
        None
    } else if s[from] == a && s[from + 1] == b {
        Some(from)
    } else {
        find_pair(s, a, b, from + 1)
    }
}

proof fn lemma_find_pair(s: Seq<char>, a: char, b: char, from: int)
    requires
        0 <= from,
    ensures
        find_pair(s, a, b, from) matches Some(i) ==> from <= i && i + 1 < s.len(),
    decreases s.len() - from,
{
    if from + 1 < s.len() && !(s[from] == a && s[from + 1] == b) {
        lemma_find_pair(s, a, b, from + 1);
    }
}

/// `prefix` put before a successful expansion; a missing file stays missing.
pub open spec fn glue(prefix: Seq<char>, r: Result<Seq<char>, Seq<char>>) -> Result<Seq<char>, Seq<char>> {
    match r {
        Ok(t) => Ok(prefix + t),
        Err(e) => Err(e),
    }
}

/// `t` ending with a line feed.
pub open spec fn with_newline(t: Seq<char>) -> Seq<char> {
    if t.len() > 0 && t.last() == '\n' {
        t
    } else {
        t.push('\n')
    }
}

/// The expansion of the file `name` found at nesting `depth`: its content with
/// every `{!path!}` replaced, ending with a line feed; or the path of the first
/// file needed that `files` does not hold.
pub open spec fn expand_spec(files: SourceFiles, name: Seq<char>, depth: nat) -> Result<Seq<char>, Seq<char>>
    decreases MAX_DEPTH - depth, 1nat, 0nat,
{
    match files.get_spec(name) {
        None => Err(name),
        Some(c) => match scan_spec(files, name, c, 0, depth) {
            Ok(t) => Ok(with_newline(t)),
            Err(e) => Err(e),
        },
    }
}

/// The expansion of `c[cursor..]`, part of the file `name` at nesting `depth`.
/// A `{!` with no `!}` after it is kept as text.  A reference nested deeper
/// than `MAX_DEPTH` gives `TOO_DEEP` in place of the file.
pub open spec fn scan_spec(files: SourceFiles, name: Seq<char>, c: Seq<char>, cursor: int, depth: nat) -> Result<Seq<char>, Seq<char>>
    decreases MAX_DEPTH - depth, 0nat, c.len() - cursor,
    via scan_decreases
{
    match find_pair(c, '{', '!', cursor) {
        None => Ok(c.subrange(cursor, c.len() as int)),
        Some(start) => match find_pair(c, '!', '}', start + 2) {
            None => glue(c.subrange(cursor, start + 2), scan_spec(files, name, c, start + 2, depth)),
            Some(end) => {
                let target = resolve_spec(name, c.subrange(start + 2, end));
                let inner = if depth + 1 >= MAX_DEPTH {
                    Ok(TOO_DEEP@)
                } else {
                    expand_spec(files, target, depth + 1)
                };
                match inner {
                    Err(e) => Err(e),
                    Ok(t) => glue(c.subrange(cursor, start) + t, scan_spec(files, name, c, end + 2, depth)),
                }
            },
        },
    }
}

#[via_fn]
proof fn scan_decreases(files: SourceFiles, name: Seq<char>, c: Seq<char>, cursor: int, depth: nat) {
    if cursor >= 0 {
        lemma_find_pair(c, '{', '!', cursor);
        if let Some(start) = find_pair(c, '{', '!', cursor) {
            lemma_find_pair(c, '!', '}', start + 2);
        }
    } else {
        assert(find_pair(c, '{', '!', cursor) is None);
    }
}

pub open spec fn result_view(r: Result<String, String>) -> Result<Seq<char>, Seq<char>> {
    match r {
        Ok(t) => Ok(t@),
        Err(e) => Err(e@),
    }
}

/// The first index at or after `from` where `a` is directly followed by `b`.
fn find_pair_in(s: &Vec<char>, a: char, b: char, from: usize) -> (r: Option<usize>)
    ensures
        match r {
            Some(i) => find_pair(s@, a, b, from as int) == Some(i as int),
            None => find_pair(s@, a, b, from as int) is None,
        },
{
    let mut i: usize = from;
    while i < s.len() && s.len() - i > 1
        invariant
            from <= i,
            find_pair(s@, a, b, from as int) == find_pair(s@, a, b, i as int),
        decreases s.len() - i,
    {
        if s[i] == a && s[i + 1] == b {
            return Some(i);
        }
        i = i + 1;
    }
    None
}

/// Appends `src[from..to]` to `out`.
fn push_range(out: &mut Vec<char>, src: &Vec<char>, from: usize, to: usize)
    requires
        from <= to <= src.len(),
    ensures
        final(out)@ == old(out)@ + src@.subrange(from as int, to as int),
{
    let mut i: usize = from;
    while i < to
        invariant
            from <= i <= to <= src.len(),
            out@ == old(out)@ + src@.subrange(from as int, i as int),
        decreases to - i,
    {
        out.push(src[i]);
        i = i + 1;
    }
}

/// Expands the file `name` found at nesting `depth`, as `expand_spec` says.
fn expand_file(files: &SourceFiles, name: &str, depth: usize) -> (r: Result<String, String>)
    requires
        depth < MAX_DEPTH,
    ensures
        result_view(r) == expand_spec(*files, name@, depth as nat),
    decreases MAX_DEPTH - depth,
{
    let c = match files.get(name) {
        None => {
            return Err(name.to_owned());
        },
        Some(text) => chars_of(text.as_str()),
    };
    let n = c.len();
    let ghost whole = scan_spec(*files, name@, c@, 0, depth as nat);
    let mut out: Vec<char> = Vec::new();
    let mut cursor: usize = 0;
    proof {
        assert(glue(out@, scan_spec(*files, name@, c@, 0, depth as nat)) =~= whole) by {
            match whole {
                Ok(t) => assert(Seq::<char>::empty() + t =~= t),
                Err(_) => {},
            }
        }
    }
    loop
        invariant
            cursor <= n == c.len(),
            depth < MAX_DEPTH,
            files.get_spec(name@) == Some(c@),
            whole == scan_spec(*files, name@, c@, 0, depth as nat),
            whole == glue(out@, scan_spec(*files, name@, c@, cursor as int, depth as nat)),
        decreases n - cursor,
    {
        let ghost before = out@;
        proof {
            lemma_find_pair(c@, '{', '!', cursor as int);
        }
        match find_pair_in(&c, '{', '!', cursor) {
            None => {
                push_range(&mut out, &c, cursor, n);
                if out.len() == 0 || out[out.len() - 1] != '\n' {
                    out.push('\n');
                }
                proof {
                    assert(out@ =~= with_newline(before + c@.subrange(cursor as int, n as int)));
                }
                return Ok(string_of(out.as_slice()));
            },
            Some(start) => {
                proof {
                    lemma_find_pair(c@, '!', '}', start + 2);
                }
                match find_pair_in(&c, '!', '}', start + 2) {
                    None => {
                        push_range(&mut out, &c, cursor, start + 2);
                        proof {
                            let rest = scan_spec(*files, name@, c@, start + 2, depth as nat);
                            match rest {
                                Ok(t) => assert(before + (c@.subrange(cursor as int, start + 2) + t) =~= out@ + t),
                                Err(_) => {},
                            }
                        }
                        cursor = start + 2;
                    },
                    Some(end) => {
                        let reference = string_of(slice_chars(&c, start + 2, end).as_slice());
                        let target = resolve_reference(name, reference.as_str());
                        let inner = if depth + 1 >= MAX_DEPTH {
                            TOO_DEEP.to_owned()
                        } else {
                            match expand_file(files, target.as_str(), depth + 1) {
                                Ok(t) => t,
                                Err(e) => {
                                    return Err(e);
                                },
                            }
                        };
                        push_range(&mut out, &c, cursor, start);
                        let inner_chars = chars_of(inner.as_str());
                        push_range(&mut out, &inner_chars, 0, inner_chars.len());
                        proof {
                            assert(inner_chars@.subrange(0, inner_chars@.len() as int) =~= inner@);
                            let rest = scan_spec(*files, name@, c@, end + 2, depth as nat);
                            match rest {
                                Ok(t) => assert(before + (c@.subrange(cursor as int, start as int) + inner@ + t) =~= out@ + t),
                                Err(_) => {},
                            }
                        }
                        cursor = end + 2;
                    },
                }
            },
        }
    }
}

/// Loads the file `file_name` with every `{!path!}` in it replaced by the
/// loaded content of the file `path` (relative paths are taken from the
/// directory of the file that names them), to a nesting of `MAX_DEPTH`
/// files, beyond which `TOO_DEEP` stands in place of the file; the result
/// ends with a line feed.  `Err` gives the first file needed that `files`
/// does not hold.
pub fn preprocess(files: &SourceFiles, file_name: &str) -> (r: Result<String, String>)
    ensures
        result_view(r) == expand_spec(*files, file_name@, 0),
{
    expand_file(files, file_name, 0)
}

} // verus!
