//! The Judge's binary verdict and its exact parsing.

use vstd::prelude::*;
use crate::text::{trim, trim_spec};
use crate::prompt::Direction;

verus! {

/// The sentence a Judge replies with when the first (original) result is better.
pub const ORIGINAL_BETTER_REPLY: &'static str = "First result is better.";

/// The sentence a Judge replies with when the second (candidate) result is better.
pub const CANDIDATE_BETTER_REPLY: &'static str = "The second implementation is better.";

/// Outcome of comparing the original artifact with the candidate.
#[derive(Clone, Copy, Debug, PartialEq, Eq, Structural)]
pub enum Verdict {
    OriginalBetter,
    CandidateBetter,
    /// The reply matched neither fixed sentence.
    Ambiguous,
}

pub open spec fn original_better_text() -> Seq<char> {
    ORIGINAL_BETTER_REPLY@
}

pub open spec fn candidate_better_text() -> Seq<char> {
    CANDIDATE_BETTER_REPLY@
}

/// The verdict a reply stands for: the trimmed reply must equal one of the
/// two sentences exactly, case and punctuation included.
pub open spec fn verdict_of(reply: Seq<char>) -> Verdict {
    let t = trim_spec(reply);
    if t == original_better_text() {
        Verdict::OriginalBetter
    } else if t == candidate_better_text() {
        Verdict::CandidateBetter
    } else {
        Verdict::Ambiguous
    }
}

/// Classifies a Judge reply.
pub fn parse_verdict(reply: &str) -> (v: Verdict)
    ensures
        v == verdict_of(reply@),
{
    let t = trim(reply);
    let original = ORIGINAL_BETTER_REPLY.to_owned();
    let candidate = CANDIDATE_BETTER_REPLY.to_owned();
    if t == original {
        Verdict::OriginalBetter
    } else if t == candidate {
        Verdict::CandidateBetter
    } else {
        Verdict::Ambiguous
    }
}

/// The sentence a Judge replies with, in a reverse run, when the first (original) specification is better.
pub const ORIGINAL_SPEC_BETTER_REPLY: &'static str = "First specification is better.";

/// The sentence a Judge replies with, in a reverse run, when the second (candidate) specification is better.
pub const CANDIDATE_SPEC_BETTER_REPLY: &'static str = "The second spec is better.";

/// The verdict a reply stands for in a run going in direction `d`.
pub open spec fn verdict_in(d: Direction, reply: Seq<char>) -> Verdict {
    match d {
        Direction::Forward => verdict_of(reply),
        Direction::Reverse => {
            let t = trim_spec(reply);
            if t == ORIGINAL_SPEC_BETTER_REPLY@ {
                Verdict::OriginalBetter
            } else if t == CANDIDATE_SPEC_BETTER_REPLY@ {
                Verdict::CandidateBetter
            } else {
                Verdict::Ambiguous
            }
        },
    }
}

/// Classifies a Judge reply in a run going in direction `d`.
pub fn parse_verdict_in(d: Direction, reply: &str) -> (v: Verdict)
    ensures
        v == verdict_in(d, reply@),
{
    match d {
        Direction::Forward => parse_verdict(reply),
        Direction::Reverse => {
            let t = trim(reply);
            if t == ORIGINAL_SPEC_BETTER_REPLY.to_owned() {
                Verdict::OriginalBetter
            } else if t == CANDIDATE_SPEC_BETTER_REPLY.to_owned() {
                Verdict::CandidateBetter
            } else {
                Verdict::Ambiguous
            }
        },
    }
}

} // verus!
