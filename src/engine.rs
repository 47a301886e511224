//! The refinement engine: a state machine that decides, for each run,
//! whether to bootstrap or refine the artifact, when to probe the candidate
//! against the Verifier, and how to commit, roll back or abort on the
//! Judge's verdict.  The caller performs each [`Action`] (a Generator, Verifier
//! or Judge call, or file operations) and hands the result back as an [`Event`].

use vstd::prelude::*;
use crate::audit::{apply_op, apply_ops, FileOp, Files};
use crate::prompt::{
    first_prompt, first_prompt_spec, judge_prompt, judge_prompt_spec, review_prompt,
    review_prompt_spec, Direction,
};
use crate::text::{trim, trim_spec};
use crate::verdict::{parse_verdict_in, verdict_in, Verdict};

verus! {

/// Where a run stands.
#[derive(Clone, Copy, Debug, PartialEq, Eq, Structural)]
pub enum Phase {
    /// Waiting for the artifact's current content.
    Start,
    /// Waiting for the Verifier's diagnostics on the original artifact.
    AwaitOriginalDiagnostics,
    /// Waiting for the Generator's first artifact (bootstrap).
    AwaitBootstrap,
    /// Waiting for the Generator's candidate (refine).
    AwaitCandidate,
    /// Waiting for the draft (and, with a Verifier, the probe swap) to be written.
    Probing,
    /// Waiting for the Verifier's diagnostics on the candidate, swapped in.
    AwaitCandidateDiagnostics,
    /// Waiting for the Judge's reply.
    AwaitVerdict,
    /// Waiting for the final file operations to be done.
    Settling,
    /// The run is over.
    Done,
}

/// How a run ended.
#[derive(Clone, Copy, Debug, PartialEq, Eq, Structural)]
pub enum Outcome {
    /// The artifact was missing or empty and now holds the Generator's reply.
    Bootstrapped,
    /// The candidate was judged better and is now the artifact.
    Committed,
    /// The original was judged better and was kept.
    Kept,
    /// The original was judged better and kept, but the Verifier flagged it.
    KeptVersionStillFailing,
    /// The Judge's reply was neither of the two sentences.
    VerdictAmbiguous,
    /// The Generator returned an empty reply.
    EmptyCandidate,
    /// An event came that the run was not waiting for.
    UnexpectedEvent,
}

impl Outcome {
    pub open spec fn is_success(self) -> bool {
        self is Bootstrapped || self is Committed || self is Kept
    }

    /// The process exit status for this outcome: 0 on success, 1 otherwise.
    pub fn exit_code(self) -> (code: i32)
        ensures
            code == (if self.is_success() { 0i32 } else { 1i32 }),
    {
        match self {
            Outcome::Bootstrapped | Outcome::Committed | Outcome::Kept => 0,
            _ => 1,
        }
    }
}

/// What the engine hands to a run.
pub enum Event {
    /// The artifact's content, `None` when there is no artifact file.
    ArtifactRead(Option<String>),
    /// The Verifier's diagnostics on the artifact as it stands.
    Diagnostics(Vec<String>),
    /// The Generator's reply.
    Generated(String),
    /// The Judge's reply.
    Judged(String),
    /// The file operations of the last [`Action::Apply`] are done.
    Applied,
}

/// What the engine asks a run to do next.
#[derive(Debug)]
pub enum Action {
    /// Run the Verifier on the artifact as it stands, answer with `Event::Diagnostics`.
    RunVerifier,
    /// Call the Generator with this prompt, answer with `Event::Generated`.
    Generate(String),
    /// Call the Judge with this prompt, answer with `Event::Judged`.
    Judge(String),
    /// Perform these file operations in order, answer with `Event::Applied`.
    Apply(Vec<FileOp>),
    /// Stop with this outcome.
    Finish(Outcome),
}

pub ghost enum EventView {
    ArtifactRead(Option<Seq<char>>),
    Diagnostics(Seq<Seq<char>>),
    Generated(Seq<char>),
    Judged(Seq<char>),
    Applied,
}

pub ghost enum ActionView {
    RunVerifier,
    Generate(Seq<char>),
    Judge(Seq<char>),
    Apply(Seq<FileOp>),
    Finish(Outcome),
}

impl View for Event {
    type V = EventView;

    open spec fn view(&self) -> EventView {
        match self {
            Event::ArtifactRead(Some(s)) => EventView::ArtifactRead(Some(s@)),
            Event::ArtifactRead(None) => EventView::ArtifactRead(None),
            Event::Diagnostics(d) => EventView::Diagnostics(d.deep_view()),
            Event::Generated(s) => EventView::Generated(s@),
            Event::Judged(s) => EventView::Judged(s@),
            Event::Applied => EventView::Applied,
        }
    }
}

impl View for Action {
    type V = ActionView;

    open spec fn view(&self) -> ActionView {
        match self {
            Action::RunVerifier => ActionView::RunVerifier,
            Action::Generate(s) => ActionView::Generate(s@),
            Action::Judge(s) => ActionView::Judge(s@),
            Action::Apply(ops) => ActionView::Apply(ops@),
            Action::Finish(o) => ActionView::Finish(*o),
        }
    }
}

/// The engine's state, as the contracts see it.
pub ghost struct EngineView {
    pub phase: Phase,
    pub verifier: bool,
    pub direction: Direction,
    pub spec: Seq<char>,
    pub original: Seq<char>,
    pub candidate: Seq<char>,
    pub diag_original: Seq<Seq<char>>,
    pub diag_candidate: Seq<Seq<char>>,
    pub reply: Seq<char>,
    pub outcome: Outcome,
}

/// The file operations that settle a bootstrap run.
pub open spec fn bootstrap_plan() -> Seq<FileOp> {
    seq![FileOp::WriteArtifact]
}

/// The file operations of the probing phase (see [`Phase::Probing`]).
pub open spec fn probe_plan(verifier: bool) -> Seq<FileOp> {
    if verifier {
        seq![FileOp::WriteDraft, FileOp::SwapInCandidate]
    } else {
        seq![FileOp::WriteDraft]
    }
}

/// The file operations that commit, roll back or abort on a verdict, given
/// whether the candidate was swapped into place.
pub open spec fn settle_plan(v: Verdict, swapped: bool) -> Seq<FileOp> {
    match v {
        Verdict::CandidateBetter => if swapped {
            seq![FileOp::DiscardBackup, FileOp::RemoveDraft]
        } else {
            seq![FileOp::WriteArtifact, FileOp::RemoveDraft]
        },
        Verdict::OriginalBetter => if swapped {
            seq![FileOp::RestoreBackup, FileOp::TouchArtifact, FileOp::RejectDraft]
        } else {
            seq![FileOp::TouchArtifact, FileOp::RejectDraft]
        },
        Verdict::Ambiguous => if swapped {
            seq![FileOp::RestoreBackup, FileOp::RejectDraft]
        } else {
            seq![FileOp::RejectDraft]
        },
    }
}

/// How a refine run ends on a verdict, given whether the Verifier flagged the original.
pub open spec fn outcome_of(v: Verdict, original_flagged: bool) -> Outcome {
    match v {
        Verdict::CandidateBetter => Outcome::Committed,
        Verdict::OriginalBetter => if original_flagged {
            Outcome::KeptVersionStillFailing
        } else {
            Outcome::Kept
        },
        Verdict::Ambiguous => Outcome::VerdictAmbiguous,
    }
}

/// The engine before any event.
pub open spec fn initial(spec: Seq<char>, verifier: bool, direction: Direction) -> EngineView {
    EngineView {
        phase: Phase::Start,
        verifier,
        direction,
        spec,
        original: Seq::empty(),
        candidate: Seq::empty(),
        diag_original: Seq::empty(),
        diag_candidate: Seq::empty(),
        reply: Seq::empty(),
        outcome: Outcome::UnexpectedEvent,
    }
}

/// The engine's transition: its next state and the action it asks for.
pub open spec fn next(s: EngineView, ev: EventView) -> (EngineView, ActionView) {
    let stop = (EngineView { phase: Phase::Done, ..s }, ActionView::Finish(Outcome::UnexpectedEvent));
    match (s.phase, ev) {
        (Phase::Start, EventView::ArtifactRead(a)) => {
            if a is None || a->0.len() == 0 {
                (
                    EngineView { phase: Phase::AwaitBootstrap, ..s },
                    ActionView::Generate(first_prompt_spec(s.direction, s.spec)),
                )
            } else if s.verifier {
                (
                    EngineView { phase: Phase::AwaitOriginalDiagnostics, original: a->0, ..s },
                    ActionView::RunVerifier,
                )
            } else {
                (
                    EngineView { phase: Phase::AwaitCandidate, original: a->0, ..s },
                    ActionView::Generate(review_prompt_spec(s.direction, s.spec, a->0, None)),
                )
            }
        },
        (Phase::AwaitOriginalDiagnostics, EventView::Diagnostics(d)) => (
            EngineView { phase: Phase::AwaitCandidate, diag_original: d, ..s },
            ActionView::Generate(review_prompt_spec(s.direction, s.spec, s.original, Some(d))),
        ),
        (Phase::AwaitBootstrap, EventView::Generated(c)) => {
            if c.len() == 0 {
                (
                    EngineView { phase: Phase::Done, outcome: Outcome::EmptyCandidate, ..s },
                    ActionView::Finish(Outcome::EmptyCandidate),
                )
            } else {
                (
                    EngineView {
                        phase: Phase::Settling,
                        candidate: c,
                        outcome: Outcome::Bootstrapped,
                        ..s
                    },
                    ActionView::Apply(bootstrap_plan()),
                )
            }
        },
        (Phase::AwaitCandidate, EventView::Generated(c)) => {
            if c.len() == 0 {
                (
                    EngineView { phase: Phase::Done, outcome: Outcome::EmptyCandidate, ..s },
                    ActionView::Finish(Outcome::EmptyCandidate),
                )
            } else {
                (
                    EngineView { phase: Phase::Probing, candidate: c, ..s },
                    ActionView::Apply(probe_plan(s.verifier)),
                )
            }
        },
        (Phase::Probing, EventView::Applied) => {
            if s.verifier {
                (EngineView { phase: Phase::AwaitCandidateDiagnostics, ..s }, ActionView::RunVerifier)
            } else {
                (
                    EngineView { phase: Phase::AwaitVerdict, ..s },
                    ActionView::Judge(judge_prompt_spec(s.direction, s.spec, s.original, s.candidate, None)),
                )
            }
        },
        (Phase::AwaitCandidateDiagnostics, EventView::Diagnostics(d)) => (
            EngineView { phase: Phase::AwaitVerdict, diag_candidate: d, ..s },
            ActionView::Judge(
                judge_prompt_spec(s.direction, s.spec, s.original, s.candidate, Some((s.diag_original, d))),
            ),
        ),
        (Phase::AwaitVerdict, EventView::Judged(r)) => {
            let v = verdict_in(s.direction, r);
            (
                EngineView {
                    phase: Phase::Settling,
                    reply: trim_spec(r),
                    outcome: outcome_of(v, s.diag_original.len() > 0),
                    ..s
                },
                ActionView::Apply(settle_plan(v, s.verifier)),
            )
        },
        (Phase::Settling, EventView::Applied) => (
            EngineView { phase: Phase::Done, ..s },
            ActionView::Finish(s.outcome),
        ),
        _ => stop,
    }
}

/// The file operations of `bootstrap_plan`.
pub fn bootstrap_ops() -> (ops: Vec<FileOp>)
    ensures
        ops@ == bootstrap_plan(),
{
    let mut ops: Vec<FileOp> = Vec::new();
    ops.push(FileOp::WriteArtifact);
    proof {
        assert(ops@ =~= bootstrap_plan());
    }
    ops
}

/// The file operations of `probe_plan`.
pub fn probe_ops(verifier: bool) -> (ops: Vec<FileOp>)
    ensures
        ops@ == probe_plan(verifier),
{
    let mut ops: Vec<FileOp> = Vec::new();
    ops.push(FileOp::WriteDraft);
    if verifier {
        ops.push(FileOp::SwapInCandidate);
    }
    proof {
        assert(ops@ =~= probe_plan(verifier));
    }
    ops
}

/// The file operations of `settle_plan`.
pub fn settle_ops(v: Verdict, swapped: bool) -> (ops: Vec<FileOp>)
    ensures
        ops@ == settle_plan(v, swapped),
{
    let mut ops: Vec<FileOp> = Vec::new();
    match v {
        Verdict::CandidateBetter => {
            if swapped {
                ops.push(FileOp::DiscardBackup);
            } else {
                ops.push(FileOp::WriteArtifact);
            }
            ops.push(FileOp::RemoveDraft);
        },
        Verdict::OriginalBetter => {
            if swapped {
                ops.push(FileOp::RestoreBackup);
            }
            ops.push(FileOp::TouchArtifact);
            ops.push(FileOp::RejectDraft);
        },
        Verdict::Ambiguous => {
            if swapped {
                ops.push(FileOp::RestoreBackup);
            }
            ops.push(FileOp::RejectDraft);
        },
    }
    proof {
        assert(ops@ =~= settle_plan(v, swapped));
    }
    ops
}

/// How a refine run ends, as `outcome_of` says.
pub fn decide_outcome(v: Verdict, original_flagged: bool) -> (o: Outcome)
    ensures
        o == outcome_of(v, original_flagged),
{
    match v {
        Verdict::CandidateBetter => Outcome::Committed,
        Verdict::OriginalBetter => if original_flagged {
            Outcome::KeptVersionStillFailing
        } else {
            Outcome::Kept
        },
        Verdict::Ambiguous => Outcome::VerdictAmbiguous,
    }
}

/// What the outside collaborators answer during a run: the Generator's reply,
/// the Verifier's diagnostics for any artifact content, and the Judge's reply.
pub ghost struct World {
    pub generated: Seq<char>,
    pub diagnose: spec_fn(Seq<char>) -> Seq<Seq<char>>,
    pub reply: Seq<char>,
}

/// The event that answers action `a` when the files stand as `f`.
pub open spec fn answer(a: ActionView, f: Files, w: World) -> EventView {
    match a {
        ActionView::RunVerifier => EventView::Diagnostics(
            (w.diagnose)(
                match f.artifact {
                    Some(x) => x,
                    None => Seq::empty(),
                },
            ),
        ),
        ActionView::Generate(_) => EventView::Generated(w.generated),
        ActionView::Judge(_) => EventView::Judged(w.reply),
        _ => EventView::Applied,
    }
}

/// The files after action `a`, `candidate` being the run's candidate.
pub open spec fn files_after(a: ActionView, f: Files, candidate: Seq<char>) -> Files {
    match a {
        ActionView::Apply(ops) => apply_ops(f, ops, candidate),
        _ => f,
    }
}

/// Performs actions from `a` on, at most `fuel` of them, answering each as
/// `w` says; gives the files at the end and the outcome, if the run finished.
pub open spec fn drive(s: EngineView, f: Files, a: ActionView, w: World, fuel: nat) -> (Files, Option<Outcome>)
    decreases fuel,
{
    match a {
        ActionView::Finish(o) => (f, Some(o)),
        _ => if fuel == 0 {
            (f, None)
        } else {
            let (s2, a2) = next(s, answer(a, f, w));
            drive(s2, files_after(a, f, s.candidate), a2, w, (fuel - 1) as nat)
        },
    }
}

/// A whole run on files `f`: the engine reads the artifact, then every action
/// is performed and answered as `w` says.
pub open spec fn run(spec: Seq<char>, verifier: bool, direction: Direction, f: Files, w: World) -> (Files, Option<Outcome>) {
    let (s, a) = next(initial(spec, verifier, direction), EventView::ArtifactRead(f.artifact));
    drive(s, f, a, w, 8)
}

/// A run on a missing or empty artifact writes the Generator's reply as the
/// artifact, touches no draft, backup or rejected file, and succeeds.
pub proof fn law_bootstrap(spec: Seq<char>, verifier: bool, direction: Direction, f: Files, w: World)
    requires
        f.artifact is None || f.artifact == Some(Seq::<char>::empty()),
        w.generated.len() > 0,
    ensures
        run(spec, verifier, direction, f, w) == (
        Files { artifact: Some(w.generated), ..f },
        Some(Outcome::Bootstrapped),
        ),
{
    reveal_with_fuel(drive, 4);
    reveal_with_fuel(apply_ops, 2);
}

/// After any refine run the draft is gone, and either the candidate was
/// committed and the rejected file left as it was, or the original is the
/// artifact again and the rejected file holds the candidate.  A backup made
/// for the Verifier's probe is always resolved, and the run ends as the
/// verdict and the original's diagnostics say.
pub proof fn law_refine_settles(
    spec: Seq<char>,
    verifier: bool,
    direction: Direction,
    f: Files,
    original: Seq<char>,
    w: World,
)
    requires
        f.artifact == Some(original),
        original.len() > 0,
        w.generated.len() > 0,
    ensures
        ({
            let (g, out) = run(spec, verifier, direction, f, w);
            let v = verdict_in(direction, w.reply);
            &&& g.draft is None
            &&& v is CandidateBetter ==> g.artifact == Some(w.generated) && g.rejected == f.rejected
            &&& v !is CandidateBetter ==> g.artifact == Some(original) && g.rejected == Some(w.generated)
            &&& verifier ==> g.backup is None
            &&& !verifier ==> g.backup == f.backup
            &&& out == Some(outcome_of(v, verifier && (w.diagnose)(original).len() > 0))
            &&& g.touched == (f.touched || v is OriginalBetter)
        }),
{
    reveal_with_fuel(drive, 8);
    reveal_with_fuel(apply_ops, 4);
}

/// A run whose Generator reply is empty fails and leaves every file as it was.
pub proof fn law_empty_reply_changes_nothing(spec: Seq<char>, verifier: bool, direction: Direction, f: Files, w: World)
    requires
        w.generated.len() == 0,
    ensures
        run(spec, verifier, direction, f, w) == (f, Some(Outcome::EmptyCandidate)),
{
    reveal_with_fuel(drive, 4);
}

/// In a refine run with a Verifier, from the swap of the candidate into place
/// until the Judge's verdict, the artifact holds the candidate and the backup
/// holds exactly the original, so restoring the backup gives the original back.
pub proof fn law_probe_window(
    spec: Seq<char>,
    direction: Direction,
    f: Files,
    original: Seq<char>,
    candidate: Seq<char>,
    d_original: Seq<Seq<char>>,
    d_candidate: Seq<Seq<char>>,
)
    requires
        f.artifact == Some(original),
        original.len() > 0,
        candidate.len() > 0,
    ensures
        ({
            let (s1, a1) = next(initial(spec, true, direction), EventView::ArtifactRead(Some(original)));
            let (s2, a2) = next(s1, EventView::Diagnostics(d_original));
            let (s3, a3) = next(s2, EventView::Generated(candidate));
            let probed = files_after(a3, f, candidate);
            let (s4, a4) = next(s3, EventView::Applied);
            let (s5, a5) = next(s4, EventView::Diagnostics(d_candidate));
            &&& a1 is RunVerifier && a2 is Generate && a3 is Apply && a4 is RunVerifier
            &&& a5 is Judge
            &&& probed.artifact == Some(candidate)
            &&& probed.backup == Some(original)
            &&& apply_op(probed, FileOp::RestoreBackup, candidate).artifact == Some(original)
        }),
{
    reveal_with_fuel(apply_ops, 3);
}

/// With a Verifier, once the candidate is swapped into place the backup holds
/// exactly the original content until it is explicitly discarded, so that
/// restoring the backup at any point of the settling operations gives the
/// original back, unless the candidate was accepted.
pub proof fn law_backup_holds_original(files: Files, original: Seq<char>, candidate: Seq<char>, v: Verdict)
    requires
        files.artifact == Some(original),
    ensures
        ({
            let probed = apply_ops(files, probe_plan(true), candidate);
            &&& probed.artifact == Some(candidate)
            &&& probed.backup == Some(original)
            &&& apply_op(probed, FileOp::RestoreBackup, candidate).artifact == Some(original)
            &&& forall|k: int|
                0 <= k <= settle_plan(v, true).len() ==> {
                    let g = #[trigger] apply_ops(probed, settle_plan(v, true).take(k), candidate);
                    &&& g.backup is Some ==> g.backup == Some(original)
                    &&& v !is CandidateBetter ==> apply_op(g, FileOp::RestoreBackup, candidate).artifact
                        == Some(original)
                }
        }),
{
    reveal_with_fuel(apply_ops, 4);
    let probed = apply_ops(files, probe_plan(true), candidate);
    let plan = settle_plan(v, true);
    assert forall|k: int| 0 <= k <= plan.len() implies {
        let g = #[trigger] apply_ops(probed, plan.take(k), candidate);
        &&& g.backup is Some ==> g.backup == Some(original)
        &&& v !is CandidateBetter ==> apply_op(g, FileOp::RestoreBackup, candidate).artifact
            == Some(original)
    } by {
        if k == 0 {
            assert(plan.take(k) =~= seq![]);
        } else if k == 1 {
            assert(plan.take(k) =~= seq![plan[0]]);
        } else if k == 2 {
            assert(plan.take(k) =~= seq![plan[0], plan[1]]);
        } else {
            assert(plan.take(k) =~= seq![plan[0], plan[1], plan[2]]);
        }
    }
}

/// One refinement run over one artifact.
#[derive(Debug)]
pub struct Engine {
    pub phase: Phase,
    /// Whether a Verifier is configured.
    pub verifier: bool,
    /// Which way the run goes.
    pub direction: Direction,
    /// The specification text.
    pub spec: String,
    /// The artifact's content at the start of a refine run.
    pub original: String,
    /// The Generator's reply.
    pub candidate: String,
    pub diag_original: Vec<String>,
    pub diag_candidate: Vec<String>,
    /// The Judge's reply, trimmed.
    pub reply: String,
    /// How the run ends once the final file operations are done.
    pub outcome: Outcome,
}

impl View for Engine {
    type V = EngineView;

    open spec fn view(&self) -> EngineView {
        EngineView {
            phase: self.phase,
            verifier: self.verifier,
            direction: self.direction,
            spec: self.spec@,
            original: self.original@,
            candidate: self.candidate@,
            diag_original: self.diag_original.deep_view(),
            diag_candidate: self.diag_candidate.deep_view(),
            reply: self.reply@,
            outcome: self.outcome,
        }
    }
}

impl Engine {
    /// A run from the description `spec` to an implementation, with or without a Verifier.
    pub fn new(spec: String, verifier: bool) -> (e: Engine)
        ensures
            e@ == initial(spec@, verifier, Direction::Forward),
    {
        Engine::new_in(Direction::Forward, spec, verifier)
    }

    /// A run going in direction `direction` from the input `spec`; in a
    /// reverse run `spec` is the implementation and the artifact its specification.
    pub fn new_in(direction: Direction, spec: String, verifier: bool) -> (e: Engine)
        ensures
            e@ == initial(spec@, verifier, direction),
    {
        let e = Engine {
            phase: Phase::Start,
            verifier,
            direction,
            spec,
            original: String::new(),
            candidate: String::new(),
            diag_original: Vec::new(),
            diag_candidate: Vec::new(),
            reply: String::new(),
            outcome: Outcome::UnexpectedEvent,
        };
        proof {
            assert(e.diag_original.deep_view() =~= Seq::<Seq<char>>::empty());
            assert(e.diag_candidate.deep_view() =~= Seq::<Seq<char>>::empty());
        }
        e
    }

    /// Takes one event and returns the next action, as `next` says.
    pub fn step(&mut self, event: Event) -> (a: Action)
        ensures
            (final(self)@, a@) == next(old(self)@, event@),
    {
        let ghost ev = event@;
        match (self.phase, event) {
            (Phase::Start, Event::ArtifactRead(content)) => {
                let populated = match &content {
                    Some(o) => !o.as_str().is_empty(),
                    None => false,
                };
                match content {
                    Some(o) if populated => {
                        self.original = o;
                        if self.verifier {
                            self.phase = Phase::AwaitOriginalDiagnostics;
                            Action::RunVerifier
                        } else {
                            self.phase = Phase::AwaitCandidate;
                            Action::Generate(review_prompt(self.direction, self.spec.as_str(), self.original.as_str(), None))
                        }
                    },
                    _ => {
                        self.phase = Phase::AwaitBootstrap;
                        Action::Generate(first_prompt(self.direction, self.spec.as_str()))
                    },
                }
            },
            (Phase::AwaitOriginalDiagnostics, Event::Diagnostics(d)) => {
                self.diag_original = d;
                self.phase = Phase::AwaitCandidate;
                Action::Generate(
                    review_prompt(self.direction, self.spec.as_str(), self.original.as_str(), Some(&self.diag_original)),
                )
            },
            (Phase::AwaitBootstrap, Event::Generated(c)) => {
                if c.as_str().is_empty() {
                    self.phase = Phase::Done;
                    self.outcome = Outcome::EmptyCandidate;
                    Action::Finish(Outcome::EmptyCandidate)
                } else {
                    self.candidate = c;
                    self.phase = Phase::Settling;
                    self.outcome = Outcome::Bootstrapped;
                    Action::Apply(bootstrap_ops())
                }
            },
            (Phase::AwaitCandidate, Event::Generated(c)) => {
                if c.as_str().is_empty() {
                    self.phase = Phase::Done;
                    self.outcome = Outcome::EmptyCandidate;
                    Action::Finish(Outcome::EmptyCandidate)
                } else {
                    self.candidate = c;
                    self.phase = Phase::Probing;
                    Action::Apply(probe_ops(self.verifier))
                }
            },
            (Phase::Probing, Event::Applied) => {
                if self.verifier {
                    self.phase = Phase::AwaitCandidateDiagnostics;
                    Action::RunVerifier
                } else {
                    self.phase = Phase::AwaitVerdict;
                    Action::Judge(
                        judge_prompt(
                            self.direction,
                            self.spec.as_str(),
                            self.original.as_str(),
                            self.candidate.as_str(),
                            None,
                        ),
                    )
                }
            },
            (Phase::AwaitCandidateDiagnostics, Event::Diagnostics(d)) => {
                self.diag_candidate = d;
                self.phase = Phase::AwaitVerdict;
                Action::Judge(
                    judge_prompt(
                        self.direction,
                        self.spec.as_str(),
                        self.original.as_str(),
                        self.candidate.as_str(),
                        Some((&self.diag_original, &self.diag_candidate)),
                    ),
                )
            },
            (Phase::AwaitVerdict, Event::Judged(r)) => {
                let v = parse_verdict_in(self.direction, r.as_str());
                self.reply = trim(r.as_str());
                self.outcome = decide_outcome(v, self.diag_original.len() > 0);
                self.phase = Phase::Settling;
                Action::Apply(settle_ops(v, self.verifier))
            },
            (Phase::Settling, Event::Applied) => {
                self.phase = Phase::Done;
                Action::Finish(self.outcome)
            },
            _ => {
                self.phase = Phase::Done;
                Action::Finish(Outcome::UnexpectedEvent)
            },
        }
    }
}

} // verus!
