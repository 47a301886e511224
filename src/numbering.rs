//! Numbered file names such as `llm-groq-4.rs`: reading the number out of a
//! name, and finding the highest number in use.

use vstd::prelude::*;
use crate::text::{chars_of, slice_chars, string_of};
use vstd::string::StringExecFns;

verus! {

pub open spec fn is_digit(c: char) -> bool {
    '0' <= c && c <= '9'
}

pub open spec fn all_digits(d: Seq<char>) -> bool {
    forall|i: int| 0 <= i < d.len() ==> is_digit(#[trigger] d[i])
}

/// The value of a sequence of decimal digits.
pub open spec fn digits_value(d: Seq<char>) -> nat
    decreases d.len(),
{
    if d.len() == 0 {
        0
    } else {
        digits_value(d.drop_last()) * 10 + ((d.last() as nat) - ('0' as nat)) as nat
    }
}

/// The number `s` reads as, as `usize::from_str` reads it: an optional `+`,
/// then one or more decimal digits, of a value that fits in `usize`.
pub open spec fn parse_usize_spec(s: Seq<char>) -> Option<nat> {
    let d = if s.len() > 0 && s[0] == '+' {
        s.drop_first()
    } else {
        s
    };
    if d.len() == 0 || !all_digits(d) {
        None
    } else if digits_value(d) > usize::MAX {
        None
    } else {
        Some(digits_value(d))
    }
}

proof fn lemma_digits_grow(d: Seq<char>, i: int, j: int)
    requires
        0 <= i <= j <= d.len(),
        forall|k: int| 0 <= k < d.len() ==> is_digit(#[trigger] d[k]),
    ensures
        digits_value(d.take(i)) <= digits_value(d.take(j)),
    decreases j - i,
{
    if i < j {
        lemma_digits_grow(d, i, j - 1);
        assert(d.take(j).drop_last() =~= d.take(j - 1));
    }
}

/// Reads `s` as `usize::from_str` does.
pub fn parse_usize(s: &str) -> (r: Option<usize>)
    ensures
        match r {
            Some(n) => parse_usize_spec(s@) == Some(n as nat),
            None => parse_usize_spec(s@) is None,
        },
{
    let v = chars_of(s);
    let from: usize = if v.len() > 0 && v[0] == '+' { 1 } else { 0 };
    let d = slice_chars(&v, from, v.len());
    proof {
        if s@.len() > 0 && s@[0] == '+' {
            assert(d@ =~= s@.drop_first());
        } else {
            assert(d@ =~= s@);
        }
    }
    let ghost digits = if s@.len() > 0 && s@[0] == '+' {
        s@.drop_first()
    } else {
        s@
    };
    assert(d@ == digits);
    if d.len() == 0 {
        return None;
    }
    let mut value: usize = 0;
    let mut i: usize = 0;
    while i < d.len()
        invariant
            0 <= i <= d.len(),
            forall|k: int| 0 <= k < i ==> is_digit(#[trigger] d@[k]),
            value == digits_value(d@.take(i as int)),
            d@ == digits,
            digits == (if s@.len() > 0 && s@[0] == '+' {
                s@.drop_first()
            } else {
                s@
            }),
        decreases d.len() - i,
    {
        let c = d[i];
        if !('0' <= c && c <= '9') {
            proof {
                assert(!is_digit(digits[i as int]));
                assert(!all_digits(digits));
            }
            return None;
        }
        proof {
            assert(d@.take(i as int + 1).drop_last() =~= d@.take(i as int));
        }
        let digit = (c as u32 - '0' as u32) as usize;
        if value > (usize::MAX - digit) / 10 {
            proof {
                assert(digits_value(d@.take(i as int + 1)) > usize::MAX) by (nonlinear_arith)
                    requires
                        value > (usize::MAX - digit) / 10,
                        digits_value(d@.take(i as int + 1)) == value * 10 + digit,
                        digit <= 9,
                ;
                let rest = digits;
                if all_digits(rest) {
                    lemma_digits_grow(rest, i as int + 1, rest.len() as int);
                    assert(rest.take(rest.len() as int) =~= rest);
                    assert(digits_value(rest) > usize::MAX);
                } else {
                    let k = choose|k: int| 0 <= k < rest.len() && !is_digit(#[trigger] rest[k]);
                    assert(!is_digit(rest[k]));
                }
                assert(parse_usize_spec(s@) is None);
            }
            return None;
        }
        value = value * 10 + digit;
        i = i + 1;
    }
    proof {
        assert(d@.take(i as int) =~= d@);
        assert(all_digits(digits));
    }
    Some(value)
}

/// `name` with `prefix` taken off its front, if it starts with it.
pub open spec fn strip_prefix_spec(name: Seq<char>, prefix: Seq<char>) -> Option<Seq<char>> {
    if prefix.len() <= name.len() && name.take(prefix.len() as int) == prefix {
        Some(name.skip(prefix.len() as int))
    } else {
        None
    }
}

/// `name` with `suffix` taken off its end, if it ends with it.
pub open spec fn strip_suffix_spec(name: Seq<char>, suffix: Seq<char>) -> Option<Seq<char>> {
    if suffix.len() <= name.len() && name.skip(name.len() - suffix.len()) == suffix {
        Some(name.take(name.len() - suffix.len()))
    } else {
        None
    }
}

/// The number between `prefix` and `suffix` in `name`.
pub open spec fn extract_number_spec(name: Seq<char>, prefix: Seq<char>, suffix: Seq<char>) -> Option<nat> {
    match strip_prefix_spec(name, prefix) {
        None => None,
        Some(rest) => match strip_suffix_spec(rest, suffix) {
            None => None,
            Some(middle) => parse_usize_spec(middle),
        },
    }
}

/// Whether `v[at..at + p.len()]` is `p`.
fn matches_at(v: &Vec<char>, p: &Vec<char>, at: usize) -> (r: bool)
    requires
        at + p.len() <= v.len(),
    ensures
        r == (v@.subrange(at as int, at + p.len()) == p@),
{
    let mut j: usize = 0;
    while j < p.len()
        invariant
            at + p.len() <= v.len(),
            j <= p.len(),
            forall|k: int| 0 <= k < j ==> v@[at + k] == p@[k],
        decreases p.len() - j,
    {
        if v[at + j] != p[j] {
            proof {
                assert(v@.subrange(at as int, at + p.len())[j as int] != p@[j as int]);
            }
            return false;
        }
        j = j + 1;
    }
    proof {
        assert(v@.subrange(at as int, at + p.len()) =~= p@);
    }
    true
}

/// The number between `prefix` and `suffix` in `name`, if `name` is exactly
/// `prefix`, a number that fits in `usize`, and `suffix`.
pub fn extract_number(name: &str, prefix: &str, suffix: &str) -> (r: Option<usize>)
    ensures
        match r {
            Some(n) => extract_number_spec(name@, prefix@, suffix@) == Some(n as nat),
            None => extract_number_spec(name@, prefix@, suffix@) is None,
        },
{
    let v = chars_of(name);
    let p = chars_of(prefix);
    let q = chars_of(suffix);
    if p.len() > v.len() || !matches_at(&v, &p, 0) {
        proof {
            if p.len() <= v.len() {
                assert(v@.subrange(0, p@.len() as int) =~= v@.take(p@.len() as int));
            }
        }
        return None;
    }
    proof {
        assert(v@.subrange(0, p@.len() as int) =~= v@.take(p@.len() as int));
    }
    let rest = slice_chars(&v, p.len(), v.len());
    proof {
        assert(rest@ =~= v@.skip(p@.len() as int));
    }
    if q.len() > rest.len() || !matches_at(&rest, &q, rest.len() - q.len()) {
        proof {
            if q.len() <= rest.len() {
                assert(rest@.subrange(rest.len() - q.len(), rest.len() as int) =~= rest@.skip(rest.len() - q.len()));
            }
        }
        return None;
    }
    proof {
        assert(rest@.subrange(rest.len() - q.len(), rest.len() as int) =~= rest@.skip(rest.len() - q.len()));
    }
    let middle = slice_chars(&rest, 0, rest.len() - q.len());
    proof {
        assert(middle@ =~= rest@.take(rest.len() - q.len()));
    }
    let text = string_of(middle.as_slice());
    parse_usize(text.as_str())
}

/// The larger of two optional numbers; a number beats none.
pub open spec fn max_opt(a: Option<nat>, b: Option<nat>) -> Option<nat> {
    match (a, b) {
        (Some(x), Some(y)) => Some(if x >= y { x } else { y }),
        (Some(x), None) => Some(x),
        (None, _) => b,
    }
}

/// The highest number between `prefix` and `suffix` among `names`.
pub open spec fn highest_spec(names: Seq<Seq<char>>, prefix: Seq<char>, suffix: Seq<char>) -> Option<nat>
    decreases names.len(),
{
    if names.len() == 0 {
        None
    } else {
        max_opt(
            highest_spec(names.drop_last(), prefix, suffix),
            extract_number_spec(names.last(), prefix, suffix),
        )
    }
}

pub open spec fn opt_nat(r: Option<usize>) -> Option<nat> {
    match r {
        Some(n) => Some(n as nat),
        None => None,
    }
}

fn larger(a: Option<usize>, b: Option<usize>) -> (r: Option<usize>)
    ensures
        opt_nat(r) == max_opt(opt_nat(a), opt_nat(b)),
{
    match (a, b) {
        (Some(x), Some(y)) => Some(if x >= y { x } else { y }),
        (Some(x), None) => Some(x),
        (None, _) => b,
    }
}

/// The highest number between `prefix` and `suffix` among `names`.
pub fn highest_number(names: &Vec<String>, prefix: &str, suffix: &str) -> (r: Option<usize>)
    ensures
        opt_nat(r) == highest_spec(names.deep_view(), prefix@, suffix@),
{
    let mut best: Option<usize> = None;
    let mut i: usize = 0;
    while i < names.len()
        invariant
            0 <= i <= names.len(),
            opt_nat(best) == highest_spec(names.deep_view().take(i as int), prefix@, suffix@),
        decreases names.len() - i,
    {
        proof {
            assert(names.deep_view().take(i as int + 1).drop_last() =~= names.deep_view().take(i as int));
        }
        let n = extract_number(names[i].as_str(), prefix, suffix);
        best = larger(best, n);
        i = i + 1;
    }
    proof {
        assert(names.deep_view().take(i as int) =~= names.deep_view());
    }
    best
}

/// The prefix of the numbered names of the family `tag`: `llm-<tag>-`.
pub open spec fn family_prefix_spec(tag: Seq<char>) -> Seq<char> {
    "llm-"@ + tag + "-"@
}

pub fn family_prefix(tag: &str) -> (r: String)
    ensures
        r@ == family_prefix_spec(tag@),
{
    let mut r = "llm-".to_owned();
    r.append(tag);
    r.append("-");
    r
}

/// The highest number of the family `tag` among the description names
/// (`llm-<tag>-<n>.md`) and the program names (`llm-<tag>-<n>.rs`).
pub fn current_number(md_names: &Vec<String>, rs_names: &Vec<String>, tag: &str) -> (r: Option<usize>)
    ensures
        opt_nat(r) == max_opt(
            highest_spec(md_names.deep_view(), family_prefix_spec(tag@), ".md"@),
            highest_spec(rs_names.deep_view(), family_prefix_spec(tag@), ".rs"@),
        ),
{
    let prefix = family_prefix(tag);
    let md = highest_number(md_names, prefix.as_str(), ".md");
    let rs = highest_number(rs_names, prefix.as_str(), ".rs");
    larger(md, rs)
}

} // verus!
