//! The prompts sent to the Generator and to the Judge.

use vstd::prelude::*;
use vstd::string::StringExecFns;

verus! {

pub const BOOTSTRAP_HEAD: &'static str =
    "Please produce single output result, which would match the description below as well as you can:\n\n";

pub const REFINE_HEAD: &'static str =
    "Please verify that the description below (enclosed into <result-description></result-description>) matches the specimen (enclosed into <result-specimen></result-specimen>) as much as possible";

pub const REFINE_DIAGNOSTICS_CLAUSE: &'static str =
    ", taking into account the possible presence of compiler errors (enclosed into <compiler-errors></compiler-errors>)";

pub const REFINE_BODY: &'static str =
    ". If it does - then simply output the content of the result-specimen verbatim. If you find that there are imperfections in how result-specimen fulfills its purpose described in result-description, then improve it and output the full result, with your improvements, BUT without any side comments/observations. Do not delimit the result with anything, output it verbatim.\n\n<result-description>\n";

pub const DESCRIPTION_TO_SPECIMEN: &'static str = "\n</result-description>\n\n<result-specimen>\n";

pub const SPECIMEN_END: &'static str = "\n</result-specimen>";

pub const ERRORS_OPEN: &'static str = "\n\n<compiler-errors>\n";

pub const ERRORS_CLOSE: &'static str = "\n</compiler-errors>";

pub const EVAL_HEAD: &'static str =
    "Please CAREFULLY evaluate the below description (enclosed into <result-description></result-description>), and two outputs corresponding to this description, first one enclosed into \"<first-result></first-result>\" and the second enclosed into \"<second-result></second-result>\"";

pub const EVAL_DIAGNOSTICS_CLAUSE: &'static str =
    ", with compile errors of first result included into \"<first-compile-errors></first-compile-errors>\" and second compile errors as \"<second-compile-errors></second-compile-errors>\"";

pub const EVAL_CRITERION: &'static str =
    ", and evaluate which of the two is more precise and correct in implementing the description";

pub const EVAL_DIAGNOSTICS_CRITERION: &'static str = " - and also which of them compiles!";

pub const EVAL_BODY: &'static str =
    ". Then, if the first result is better, output the phrase 'First result is better.', if the second result is better, output the phrase 'The second implementation is better.'. Output only one of the two phrases, and NOTHING else - not your thoughts, not analysis.\n\n<result-description>\n";

pub const DESCRIPTION_TO_FIRST: &'static str = "\n</result-description>\n\n<first-result>\n";

pub const FIRST_TO_SECOND: &'static str = "\n</first-result>\n\n<second-result>\n";

pub const SECOND_END: &'static str = "\n</second-result>";

pub const FIRST_ERRORS_OPEN: &'static str = "\n\n<first-compile-errors>\n";

pub const FIRST_ERRORS_CLOSE: &'static str = "\n</first-compile-errors>";

pub const SECOND_ERRORS_OPEN: &'static str = "\n\n<second-compile-errors>\n";

pub const SECOND_ERRORS_CLOSE: &'static str = "\n</second-compile-errors>";

/// The messages of `d`, one per line.
pub open spec fn join_lines(d: Seq<Seq<char>>) -> Seq<char>
    decreases d.len(),
{
    if d.len() == 0 {
        Seq::empty()
    } else if d.len() == 1 {
        d[0]
    } else {
        join_lines(d.drop_last()) + "\n"@ + d.last()
    }
}

/// The prompt that asks for a first artifact matching `spec`.
pub open spec fn bootstrap_prompt_spec(spec: Seq<char>) -> Seq<char> {
    BOOTSTRAP_HEAD@ + spec
}

/// The prompt that asks to check `original` against `spec` and to return it
/// verbatim or improved; `diagnostics` is present when a Verifier is configured.
pub open spec fn refine_prompt_spec(
    spec: Seq<char>,
    original: Seq<char>,
    diagnostics: Option<Seq<Seq<char>>>,
) -> Seq<char> {
    match diagnostics {
        Some(d) => REFINE_HEAD@ + REFINE_DIAGNOSTICS_CLAUSE@ + REFINE_BODY@ + spec
            + DESCRIPTION_TO_SPECIMEN@ + original + SPECIMEN_END@ + ERRORS_OPEN@ + join_lines(d)
            + ERRORS_CLOSE@,
        None => REFINE_HEAD@ + REFINE_BODY@ + spec + DESCRIPTION_TO_SPECIMEN@ + original
            + SPECIMEN_END@,
    }
}

/// The prompt that asks the Judge which of `first` (the original) and
/// `second` (the candidate) is better; the diagnostics of both are present
/// when a Verifier is configured.
pub open spec fn evaluation_prompt_spec(
    spec: Seq<char>,
    first: Seq<char>,
    second: Seq<char>,
    diagnostics: Option<(Seq<Seq<char>>, Seq<Seq<char>>)>,
) -> Seq<char> {
    match diagnostics {
        Some((d1, d2)) => EVAL_HEAD@ + EVAL_DIAGNOSTICS_CLAUSE@ + EVAL_CRITERION@
            + EVAL_DIAGNOSTICS_CRITERION@ + EVAL_BODY@ + spec + DESCRIPTION_TO_FIRST@ + first
            + FIRST_TO_SECOND@ + second + SECOND_END@ + FIRST_ERRORS_OPEN@ + join_lines(d1)
            + FIRST_ERRORS_CLOSE@ + SECOND_ERRORS_OPEN@ + join_lines(d2) + SECOND_ERRORS_CLOSE@,
        None => EVAL_HEAD@ + EVAL_CRITERION@ + EVAL_BODY@ + spec + DESCRIPTION_TO_FIRST@ + first
            + FIRST_TO_SECOND@ + second + SECOND_END@,
    }
}

/// The messages of `d`, one per line.
pub fn join_diagnostics(d: &Vec<String>) -> (r: String)
    ensures
        r@ == join_lines(d.deep_view()),
{
    let mut r = String::new();
    let mut i: usize = 0;
    while i < d.len()
        invariant
            0 <= i <= d.len(),
            r@ == join_lines(d.deep_view().take(i as int)),
        decreases d.len() - i,
    {
        proof {
            assert(d.deep_view().take(i as int + 1).drop_last() =~= d.deep_view().take(i as int));
        }
        if i > 0 {
            r.append("\n");
        }
        r.append(d[i].as_str());
        i = i + 1;
    }
    proof {
        assert(d.deep_view().take(i as int) =~= d.deep_view());
    }
    r
}

pub fn bootstrap_prompt(spec: &str) -> (r: String)
    ensures
        r@ == bootstrap_prompt_spec(spec@),
{
    let mut r = BOOTSTRAP_HEAD.to_owned();
    r.append(spec);
    r
}

pub fn refine_prompt(spec: &str, original: &str, diagnostics: Option<&Vec<String>>) -> (r: String)
    ensures
        r@ == refine_prompt_spec(
            spec@,
            original@,
            match diagnostics {
                Some(d) => Some(d.deep_view()),
                None => None,
            },
        ),
{
    let mut r = REFINE_HEAD.to_owned();
    if diagnostics.is_some() {
        r.append(REFINE_DIAGNOSTICS_CLAUSE);
    }
    r.append(REFINE_BODY);
    r.append(spec);
    r.append(DESCRIPTION_TO_SPECIMEN);
    r.append(original);
    r.append(SPECIMEN_END);
    match diagnostics {
        Some(d) => {
            r.append(ERRORS_OPEN);
            let joined = join_diagnostics(d);
            r.append(joined.as_str());
            r.append(ERRORS_CLOSE);
        },
        None => {},
    }
    r
}

pub fn evaluation_prompt(
    spec: &str,
    first: &str,
    second: &str,
    diagnostics: Option<(&Vec<String>, &Vec<String>)>,
) -> (r: String)
    ensures
        r@ == evaluation_prompt_spec(
            spec@,
            first@,
            second@,
            match diagnostics {
                Some((d1, d2)) => Some((d1.deep_view(), d2.deep_view())),
                None => None,
            },
        ),
{
    let mut r = EVAL_HEAD.to_owned();
    if diagnostics.is_some() {
        r.append(EVAL_DIAGNOSTICS_CLAUSE);
    }
    r.append(EVAL_CRITERION);
    if diagnostics.is_some() {
        r.append(EVAL_DIAGNOSTICS_CRITERION);
    }
    r.append(EVAL_BODY);
    r.append(spec);
    r.append(DESCRIPTION_TO_FIRST);
    r.append(first);
    r.append(FIRST_TO_SECOND);
    r.append(second);
    r.append(SECOND_END);
    match diagnostics {
        Some((d1, d2)) => {
            r.append(FIRST_ERRORS_OPEN);
            let j1 = join_diagnostics(d1);
            r.append(j1.as_str());
            r.append(FIRST_ERRORS_CLOSE);
            r.append(SECOND_ERRORS_OPEN);
            let j2 = join_diagnostics(d2);
            r.append(j2.as_str());
            r.append(SECOND_ERRORS_CLOSE);
        },
        None => {},
    }
    r
}

/// Which way a run goes: from a description to an implementation
/// (`Forward`), or from an implementation to its specification (`Reverse`).
#[derive(Clone, Copy, Debug, PartialEq, Eq, Structural)]
pub enum Direction {
    Forward,
    Reverse,
}

pub const REV_BOOTSTRAP_HEAD: &'static str =
    "Please produce a detailed specification which will allow to recreate the implementation below from first principles:\n";

pub const REV_REFINE_HEAD: &'static str =
    "Please verify that the implementation below (enclosed into <result-specimen></result-specimen>) is accurately described by the specification (enclosed into <result-specification></result-specification>) as much as possible. If it does - then simply output the content of the result-specification verbatim. If you find that there are imperfections in how result-specification describes the specimen, then incrementally improve it and output the full result, with your improvements. Do not delimit the result with anything, output it verbatim.\n\n<result-specimen>\n";

pub const REV_SPECIMEN_TO_SPECIFICATION: &'static str = "\n</result-specimen>\n\n<result-specification>\n";

pub const REV_SPECIFICATION_END: &'static str = "\n</result-specification>";

pub const REV_EVAL_HEAD: &'static str =
    "Please CAREFULLY evaluate the below specimen (enclosed into <result-specimen></result-specimen>), and two outputs corresponding to this description, first one enclosed into \"<first-specification></first-specification>\" and the second enclosed into \"<second-specification></second-specification>\", and evaluate which of the two is more precise and correct in describing the specimen. Then, if the first result is better, output the phrase 'First specification is better.', if the second description is better, output the phrase 'The second spec is better.'. Output only one of the two phrases, and nothing else\n\n<result-specimen>\n";

pub const REV_SPECIMEN_TO_FIRST: &'static str = "\n</result-specimen>\n\n<first-specification>\n";

pub const REV_FIRST_TO_SECOND: &'static str = "\n</first-specification>\n\n<second-specification>\n";

pub const REV_SECOND_END: &'static str = "\n</second-specification>";

/// The prompt that asks for a first artifact from the input `input`.
pub open spec fn first_prompt_spec(d: Direction, input: Seq<char>) -> Seq<char> {
    match d {
        Direction::Forward => bootstrap_prompt_spec(input),
        Direction::Reverse => REV_BOOTSTRAP_HEAD@ + input,
    }
}

/// The prompt that asks to check `original` against the input `input`; a
/// reverse run takes no diagnostics.
pub open spec fn review_prompt_spec(
    d: Direction,
    input: Seq<char>,
    original: Seq<char>,
    diagnostics: Option<Seq<Seq<char>>>,
) -> Seq<char> {
    match d {
        Direction::Forward => refine_prompt_spec(input, original, diagnostics),
        Direction::Reverse => REV_REFINE_HEAD@ + input + REV_SPECIMEN_TO_SPECIFICATION@ + original
            + REV_SPECIFICATION_END@,
    }
}

/// The prompt that asks the Judge which of `first` and `second` is better.
pub open spec fn judge_prompt_spec(
    d: Direction,
    input: Seq<char>,
    first: Seq<char>,
    second: Seq<char>,
    diagnostics: Option<(Seq<Seq<char>>, Seq<Seq<char>>)>,
) -> Seq<char> {
    match d {
        Direction::Forward => evaluation_prompt_spec(input, first, second, diagnostics),
        Direction::Reverse => REV_EVAL_HEAD@ + input + REV_SPECIMEN_TO_FIRST@ + first
            + REV_FIRST_TO_SECOND@ + second + REV_SECOND_END@,
    }
}

pub fn first_prompt(d: Direction, input: &str) -> (r: String)
    ensures
        r@ == first_prompt_spec(d, input@),
{
    match d {
        Direction::Forward => bootstrap_prompt(input),
        Direction::Reverse => {
            let mut r = REV_BOOTSTRAP_HEAD.to_owned();
            r.append(input);
            r
        },
    }
}

pub fn review_prompt(d: Direction, input: &str, original: &str, diagnostics: Option<&Vec<String>>) -> (r: String)
    ensures
        r@ == review_prompt_spec(
            d,
            input@,
            original@,
            match diagnostics {
                Some(x) => Some(x.deep_view()),
                None => None,
            },
        ),
{
    match d {
        Direction::Forward => refine_prompt(input, original, diagnostics),
        Direction::Reverse => {
            let mut r = REV_REFINE_HEAD.to_owned();
            r.append(input);
            r.append(REV_SPECIMEN_TO_SPECIFICATION);
            r.append(original);
            r.append(REV_SPECIFICATION_END);
            r
        },
    }
}

pub fn judge_prompt(
    d: Direction,
    input: &str,
    first: &str,
    second: &str,
    diagnostics: Option<(&Vec<String>, &Vec<String>)>,
) -> (r: String)
    ensures
        r@ == judge_prompt_spec(
            d,
            input@,
            first@,
            second@,
            match diagnostics {
                Some((d1, d2)) => Some((d1.deep_view(), d2.deep_view())),
                None => None,
            },
        ),
{
    match d {
        Direction::Forward => evaluation_prompt(input, first, second, diagnostics),
        Direction::Reverse => {
            let mut r = REV_EVAL_HEAD.to_owned();
            r.append(input);
            r.append(REV_SPECIMEN_TO_FIRST);
            r.append(first);
            r.append(REV_FIRST_TO_SECOND);
            r.append(second);
            r.append(REV_SECOND_END);
            r
        },
    }
}

} // verus!
