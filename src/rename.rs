//! Planning a bulk rename of files: each file's new name comes from a regular
//! expression replacement on its name, or, when both the pattern and the
//! replacement start with `.`, from swapping its extension.  Two files may not
//! be given the same new path.

use vstd::prelude::*;
use regex::Regex;
use crate::audit::opt_view;
use crate::splice::{join_path, parent_path, path_joined, path_parent};
use crate::text::chars_of;
use vstd::string::StringExecFns;

verus! {

#[verifier::external_type_specification]
#[verifier::external_body]
pub struct ExRegex(regex::Regex);

#[verifier::external_type_specification]
#[verifier::external_body]
pub struct ExRegexError(regex::Error);

/// Whether `regex::Regex::new` accepts the pattern `p`.
pub uninterp spec fn regex_accepts(p: Seq<char>) -> bool;

/// `std::path::Path::file_name` of the path `p` on the target platform.
pub uninterp spec fn path_file_name(p: Seq<char>) -> Option<Seq<char>>;

/// `std::path::Path::file_stem` of the path `p` on the target platform.
pub uninterp spec fn path_file_stem(p: Seq<char>) -> Option<Seq<char>>;

/// Relies on `regex::Regex::new`: an error exactly for a pattern it does not accept.
#[verifier::external_body]
fn compile_pattern(pattern: &str) -> (r: Result<Regex, regex::Error>)
    ensures
        r is Ok <==> regex_accepts(pattern@),
{
    Regex::new(pattern)
}

/// Relies on `Display` of `regex::Error`: the message of a rejected pattern.
#[verifier::external_body]
fn error_message(e: &regex::Error) -> (r: String) {
    e.to_string()
}

/// Relies on `regex::Regex::is_match`.
#[verifier::external_body]
fn pattern_found(re: &Regex, text: &str) -> (r: bool) {
    re.is_match(text)
}

/// Relies on `regex::Regex::replace`: the leftmost match replaced, `$` groups expanded.
#[verifier::external_body]
fn pattern_replaced(re: &Regex, text: &str, replacement: &str) -> (r: String) {
    re.replace(text, replacement).into_owned()
}

/// Relies on `std::path::Path::file_name`; a part of a UTF-8 path is UTF-8.
#[verifier::external_body]
fn file_name_of(p: &str) -> (r: Option<String>)
    ensures
        opt_view(r) == path_file_name(p@),
{
    std::path::Path::new(p).file_name().map(|q| q.to_string_lossy().into_owned())
}

/// Relies on `std::path::Path::file_stem`; a part of a UTF-8 path is UTF-8.
#[verifier::external_body]
fn file_stem_of(p: &str) -> (r: Option<String>)
    ensures
        opt_view(r) == path_file_stem(p@),
{
    std::path::Path::new(p).file_stem().map(|q| q.to_string_lossy().into_owned())
}

/// How new names are made.
pub enum RenameRule {
    /// Keep the stem, put this extension (with its dot) after it.
    Extension(String),
    /// Replace the leftmost match of the expression in the name.
    Pattern(Regex, String),
}

/// Why no plan could be made.
#[derive(Debug, PartialEq, Eq)]
pub enum RenameError {
    /// The regular expression was rejected, with the reason.
    BadPattern(String),
    /// Two files would get this same new name in one directory.
    Clash(String),
}

pub open spec fn starts_with_dot(s: Seq<char>) -> bool {
    s.len() > 0 && s[0] == '.'
}

/// The rule for `pattern` and `replacement`: an extension swap when both
/// start with `.`, else a regular expression, which must be accepted.
pub fn rename_rule(pattern: &str, replacement: &str) -> (r: Result<RenameRule, RenameError>)
    ensures
        starts_with_dot(pattern@) && starts_with_dot(replacement@) ==> (r matches Ok(
            RenameRule::Extension(e),
        ) && e@ == replacement@),
        !(starts_with_dot(pattern@) && starts_with_dot(replacement@)) ==> (r matches Ok(
            RenameRule::Pattern(_, rep),
        ) && rep@ == replacement@) || (r is Err && !regex_accepts(pattern@)),
{
    let p = chars_of(pattern);
    let q = chars_of(replacement);
    if p.len() > 0 && p[0] == '.' && q.len() > 0 && q[0] == '.' {
        Ok(RenameRule::Extension(replacement.to_owned()))
    } else {
        match compile_pattern(pattern) {
            Ok(re) => Ok(RenameRule::Pattern(re, replacement.to_owned())),
            Err(e) => Err(RenameError::BadPattern(error_message(&e))),
        }
    }
}

/// The new file name that `rule` gives the file `path`, if it gives one: for
/// an extension swap, the file's stem followed by the extension.
pub fn new_name(rule: &RenameRule, path: &str) -> (r: Option<String>)
    ensures
        rule matches RenameRule::Extension(e) ==> opt_view(r) == match path_file_stem(path@) {
            Some(stem) => Some(stem + e@),
            None => None,
        },
{
    match rule {
        RenameRule::Extension(e) => match file_stem_of(path) {
            Some(stem) => {
                let mut n = stem;
                n.append(e.as_str());
                Some(n)
            },
            None => None,
        },
        RenameRule::Pattern(re, rep) => match file_name_of(path) {
            Some(name) => {
                if pattern_found(re, name.as_str()) {
                    Some(pattern_replaced(re, name.as_str(), rep.as_str()))
                } else {
                    None
                }
            },
            None => None,
        },
    }
}

/// The move of `path` to the new name `name`: its new path, when the name
/// differs from the file's name and the file has a directory.
pub open spec fn move_of(path: Seq<char>, name: Option<Seq<char>>) -> Option<Seq<char>> {
    match (name, path_parent(path)) {
        (Some(n), Some(dir)) => if path_file_name(path) == Some(n) {
            None
        } else {
            Some(path_joined(dir, n))
        },
        _ => None,
    }
}

pub open spec fn targets(plan: Seq<(Seq<char>, Seq<char>)>) -> Seq<Seq<char>> {
    plan.map_values(|m: (Seq<char>, Seq<char>)| m.1)
}

/// The moves for the first `k` files, or the first new name that would clash.
pub open spec fn plan_spec(paths: Seq<Seq<char>>, names: Seq<Option<Seq<char>>>, k: nat) -> Result<Seq<(Seq<char>, Seq<char>)>, Seq<char>>
    decreases k,
{
    if k == 0 {
        Ok(Seq::empty())
    } else {
        match plan_spec(paths, names, (k - 1) as nat) {
            Err(e) => Err(e),
            Ok(plan) => match move_of(paths[k - 1], names[k - 1]) {
                None => Ok(plan),
                Some(t) => if targets(plan).contains(t) {
                    Err(names[k - 1]->0)
                } else {
                    Ok(plan.push((paths[k - 1], t)))
                },
            },
        }
    }
}

proof fn lemma_clash_stays(paths: Seq<Seq<char>>, names: Seq<Option<Seq<char>>>, k: nat, m: nat)
    requires
        k <= m,
        plan_spec(paths, names, k) is Err,
    ensures
        plan_spec(paths, names, m) == plan_spec(paths, names, k),
    decreases m - k,
{
    if k < m {
        lemma_clash_stays(paths, names, k, (m - 1) as nat);
    }
}

pub open spec fn opt_views(v: Seq<Option<String>>) -> Seq<Option<Seq<char>>> {
    v.map_values(|o: Option<String>| opt_view(o))
}

pub open spec fn pair_views(v: Seq<(String, String)>) -> Seq<(Seq<char>, Seq<char>)> {
    v.map_values(|m: (String, String)| (m.0@, m.1@))
}

/// The moves (old path, new path) for `paths` given the new name of each
/// (`names[i]` for `paths[i]`), in order; `Err` gives the first new name
/// whose path another file already takes.
#[verifier::loop_isolation(false)]
pub fn plan_renames(paths: &Vec<String>, names: &Vec<Option<String>>) -> (r: Result<Vec<(String, String)>, RenameError>)
    requires
        paths.len() == names.len(),
    ensures
        match r {
            Ok(plan) => plan_spec(paths.deep_view(), opt_views(names@), paths.len() as nat) == Ok::<
                Seq<(Seq<char>, Seq<char>)>,
                Seq<char>,
            >(pair_views(plan@)),
            Err(RenameError::Clash(n)) => plan_spec(paths.deep_view(), opt_views(names@), paths.len() as nat)
                == Err::<Seq<(Seq<char>, Seq<char>)>, Seq<char>>(n@),
            Err(RenameError::BadPattern(_)) => false,
        },
{
    let mut plan: Vec<(String, String)> = Vec::new();
    let mut i: usize = 0;
    proof {
        assert(pair_views(plan@) =~= Seq::<(Seq<char>, Seq<char>)>::empty());
    }
    while i < paths.len()
        invariant
            0 <= i <= paths.len() == names.len(),
            plan_spec(paths.deep_view(), opt_views(names@), i as nat) == Ok::<
                Seq<(Seq<char>, Seq<char>)>,
                Seq<char>,
            >(pair_views(plan@)),
        decreases paths.len() - i,
    {
        let path = paths[i].as_str();
        let ghost pv = paths.deep_view()[i as int];
        let ghost nv = opt_views(names@)[i as int];
        assert(pv == path@);
        assert(nv == opt_view(names@[i as int]));
        let target: Option<(String, String)> = match &names[i] {
            None => None,
            Some(n) => match parent_path(path) {
                None => None,
                Some(dir) => {
                    let same = match file_name_of(path) {
                        Some(f) => f.eq(n),
                        None => false,
                    };
                    if same {
                        None
                    } else {
                        Some((join_path(dir.as_str(), n.as_str()), n.clone()))
                    }
                },
            },
        };
        assert(match target {
            Some((t, n)) => move_of(pv, nv) == Some(t@) && nv == Some(n@),
            None => move_of(pv, nv) is None,
        });
        match target {
            None => {},
            Some((t, n)) => {
                let mut j: usize = 0;
                while j < plan.len()
                    invariant
                        0 <= j <= plan.len(),
                        forall|k: int| 0 <= k < j ==> plan@[k].1@ != t@,
                        plan_spec(paths.deep_view(), opt_views(names@), i as nat) == Ok::<
                            Seq<(Seq<char>, Seq<char>)>,
                            Seq<char>,
                        >(pair_views(plan@)),
                    decreases plan.len() - j,
                {
                    if plan[j].1.eq(&t) {
                        proof {
                            assert(targets(pair_views(plan@))[j as int] == t@);
                            assert(plan_spec(paths.deep_view(), opt_views(names@), i as nat + 1) == Err::<
                                Seq<(Seq<char>, Seq<char>)>,
                                Seq<char>,
                            >(n@));
                            lemma_clash_stays(paths.deep_view(), opt_views(names@), i as nat + 1, paths.len() as nat);
                        }
                        return Err(RenameError::Clash(n));
                    }
                    j = j + 1;
                }
                proof {
                    assert(!targets(pair_views(plan@)).contains(t@)) by {
                        if targets(pair_views(plan@)).contains(t@) {
                            let k = choose|k: int| 0 <= k < targets(pair_views(plan@)).len() && targets(pair_views(plan@))[k] == t@;
                            assert(plan@[k].1@ == t@);
                        }
                    }
                }
                let ghost before = plan@;
                plan.push((paths[i].clone(), t));
                proof {
                    assert(pair_views(plan@) =~= pair_views(before).push((pv, t@)));
                }
            },
        }
        i = i + 1;
    }
    Ok(plan)
}

} // verus!
