use llm_refine::audit::{FileOp, Workspace};
use llm_refine::engine::{Action, Engine, Event, Outcome, Phase};
use llm_refine::prompt::{bootstrap_prompt, Direction, BOOTSTRAP_HEAD, REV_BOOTSTRAP_HEAD};
use llm_refine::verdict::{parse_verdict, parse_verdict_in, Verdict, CANDIDATE_BETTER_REPLY, ORIGINAL_BETTER_REPLY};

/// Runs `engine` on `ws`, answering each action: the Generator with
/// `generated`, the Verifier with `diagnose` of the artifact as it stands,
/// the Judge with `reply`.  Records every action taken.
fn run(
    engine: &mut Engine,
    ws: &mut Workspace,
    generated: &str,
    diagnose: &dyn Fn(&str) -> Vec<String>,
    reply: &str,
    seen: &mut Vec<String>,
) -> Outcome {
    let mut action = engine.step(Event::ArtifactRead(ws.artifact.clone()));
    loop {
        seen.push(format!("{:?}", action));
        action = match action {
            Action::RunVerifier => {
                let current = ws.artifact.clone().unwrap_or_default();
                engine.step(Event::Diagnostics(diagnose(&current)))
            }
            Action::Generate(_) => engine.step(Event::Generated(generated.to_string())),
            Action::Judge(_) => engine.step(Event::Judged(reply.to_string())),
            Action::Apply(ops) => {
                let candidate = engine.candidate.clone();
                ws.apply_all(&ops, &candidate);
                engine.step(Event::Applied)
            }
            Action::Finish(o) => return o,
        };
    }
}

fn clean(_: &str) -> Vec<String> {
    Vec::new()
}

#[test]
fn run_bootstrap_from_missing_artifact() {
    let mut ws = Workspace::new(None);
    let mut engine = Engine::new("a greeting".to_string(), false);
    let mut seen = Vec::new();
    let outcome = run(&mut engine, &mut ws, "hello", &clean, "", &mut seen);
    assert_eq!(outcome, Outcome::Bootstrapped);
    assert_eq!(outcome.exit_code(), 0);
    assert_eq!(ws.artifact, Some("hello".to_string()));
    assert_eq!(ws.draft, None);
    assert_eq!(ws.backup, None);
    assert_eq!(ws.rejected, None);
    assert!(!seen.iter().any(|a| a.starts_with("Judge")));
}

#[test]
fn bootstrap_from_empty_artifact_asks_for_a_first_result() {
    let mut engine = Engine::new("S".to_string(), true);
    match engine.step(Event::ArtifactRead(Some(String::new()))) {
        Action::Generate(p) => assert_eq!(p, format!("{}S", BOOTSTRAP_HEAD)),
        other => panic!("unexpected {:?}", other),
    }
    assert_eq!(engine.phase, Phase::AwaitBootstrap);
    assert_eq!(
        bootstrap_prompt("S"),
        "Please produce single output result, which would match the description below as well as you can:\n\nS"
    );
}

#[test]
fn run_candidate_better_commits() {
    let mut ws = Workspace::new(Some("v1".to_string()));
    let mut engine = Engine::new("spec".to_string(), false);
    let mut seen = Vec::new();
    let outcome = run(&mut engine, &mut ws, "v2", &clean, CANDIDATE_BETTER_REPLY, &mut seen);
    assert_eq!(outcome, Outcome::Committed);
    assert_eq!(outcome.exit_code(), 0);
    assert_eq!(ws.artifact, Some("v2".to_string()));
    assert_eq!(ws.draft, None);
    assert_eq!(ws.rejected, None);
}

#[test]
fn run_original_better_keeps_and_touches() {
    let mut ws = Workspace::new(Some("v1".to_string()));
    let mut engine = Engine::new("spec".to_string(), false);
    let mut seen = Vec::new();
    let outcome = run(&mut engine, &mut ws, "v2", &clean, "First result is better.", &mut seen);
    assert_eq!(outcome, Outcome::Kept);
    assert_eq!(outcome.exit_code(), 0);
    assert_eq!(ws.artifact, Some("v1".to_string()));
    assert!(ws.touched);
    assert_eq!(ws.rejected, Some("v2".to_string()));
    assert_eq!(ws.draft, None);
}

#[test]
fn run_kept_version_still_failing() {
    let mut ws = Workspace::new(Some("v1".to_string()));
    let mut engine = Engine::new("spec".to_string(), true);
    let mut seen = Vec::new();
    let diagnose = |content: &str| {
        if content == "v1" {
            vec!["error[E0425]: cannot find value `x` in main.rs".to_string()]
        } else {
            Vec::new()
        }
    };
    let outcome = run(&mut engine, &mut ws, "v2", &diagnose, ORIGINAL_BETTER_REPLY, &mut seen);
    assert_eq!(outcome, Outcome::KeptVersionStillFailing);
    assert_ne!(outcome.exit_code(), 0);
    assert_eq!(ws.artifact, Some("v1".to_string()));
    assert_eq!(ws.backup, None);
    assert_eq!(ws.rejected, Some("v2".to_string()));
    assert_eq!(engine.diag_original.len(), 1);
    assert_eq!(engine.diag_candidate.len(), 0);
}

#[test]
fn run_ambiguous_verdict_restores_and_fails() {
    let mut ws = Workspace::new(Some("v1".to_string()));
    let mut engine = Engine::new("spec".to_string(), true);
    let mut seen = Vec::new();
    let outcome = run(&mut engine, &mut ws, "v2", &clean, "I think both are fine.", &mut seen);
    assert_eq!(outcome, Outcome::VerdictAmbiguous);
    assert_ne!(outcome.exit_code(), 0);
    assert_eq!(ws.artifact, Some("v1".to_string()));
    assert_eq!(ws.backup, None);
    assert_eq!(ws.rejected, Some("v2".to_string()));
    assert_eq!(ws.draft, None);
    assert_eq!(engine.reply, "I think both are fine.");
}

#[test]
fn ambiguous_without_verifier_rejects_draft() {
    let mut ws = Workspace::new(Some("v1".to_string()));
    let mut engine = Engine::new("spec".to_string(), false);
    let mut seen = Vec::new();
    let outcome = run(&mut engine, &mut ws, "v2", &clean, "  maybe\n", &mut seen);
    assert_eq!(outcome, Outcome::VerdictAmbiguous);
    assert_eq!(ws.artifact, Some("v1".to_string()));
    assert_eq!(ws.rejected, Some("v2".to_string()));
    assert!(!ws.touched);
    assert_eq!(engine.reply, "maybe");
}

#[test]
fn commit_after_probe_discards_backup() {
    let mut ws = Workspace::new(Some("v1".to_string()));
    let mut engine = Engine::new("spec".to_string(), true);
    let mut seen = Vec::new();
    let outcome = run(&mut engine, &mut ws, "v2", &clean, "The second implementation is better.\n", &mut seen);
    assert_eq!(outcome, Outcome::Committed);
    assert_eq!(ws.artifact, Some("v2".to_string()));
    assert_eq!(ws.backup, None);
    assert_eq!(ws.draft, None);
    assert_eq!(ws.rejected, None);
    assert_eq!(seen.len(), 7);
    assert_eq!(seen[0], "RunVerifier");
    assert!(seen[1].starts_with("Generate("));
    assert_eq!(seen[2], "Apply([WriteDraft, SwapInCandidate])");
    assert_eq!(seen[3], "RunVerifier");
    assert!(seen[4].starts_with("Judge("));
    assert_eq!(seen[5], "Apply([DiscardBackup, RemoveDraft])");
    assert_eq!(seen[6], "Finish(Committed)");
}

#[test]
fn backup_holds_original_during_probe() {
    let mut ws = Workspace::new(Some("orig".to_string()));
    ws.apply(FileOp::WriteDraft, "cand");
    ws.apply(FileOp::SwapInCandidate, "cand");
    assert_eq!(ws.artifact, Some("cand".to_string()));
    assert_eq!(ws.backup, Some("orig".to_string()));
    assert_eq!(ws.draft, Some("cand".to_string()));
    ws.apply(FileOp::RestoreBackup, "cand");
    assert_eq!(ws.artifact, Some("orig".to_string()));
    assert_eq!(ws.backup, None);
    ws.apply(FileOp::RestoreBackup, "cand");
    assert_eq!(ws.artifact, Some("orig".to_string()));
}

#[test]
fn file_ops_each_do_one_thing() {
    let mut ws = Workspace::new(Some("a".to_string()));
    ws.apply(FileOp::RejectDraft, "c");
    assert_eq!(ws.rejected, None);
    ws.apply(FileOp::WriteDraft, "c");
    ws.apply(FileOp::RejectDraft, "c");
    assert_eq!(ws.rejected, Some("c".to_string()));
    assert_eq!(ws.draft, None);
    ws.apply(FileOp::WriteArtifact, "c");
    assert_eq!(ws.artifact, Some("c".to_string()));
    ws.apply(FileOp::WriteDraft, "d");
    ws.apply(FileOp::RemoveDraft, "d");
    assert_eq!(ws.draft, None);
    ws.apply(FileOp::TouchArtifact, "d");
    assert!(ws.touched);
    ws.apply(FileOp::SwapInCandidate, "e");
    ws.apply(FileOp::DiscardBackup, "e");
    assert_eq!(ws.backup, None);
    assert_eq!(ws.artifact, Some("e".to_string()));
}

#[test]
fn empty_candidate_stops_without_writing() {
    let mut ws = Workspace::new(Some("v1".to_string()));
    let mut engine = Engine::new("spec".to_string(), false);
    let mut seen = Vec::new();
    let outcome = run(&mut engine, &mut ws, "", &clean, "", &mut seen);
    assert_eq!(outcome, Outcome::EmptyCandidate);
    assert_eq!(outcome.exit_code(), 1);
    assert_eq!(ws.artifact, Some("v1".to_string()));
    assert_eq!(ws.draft, None);
}

#[test]
fn unexpected_event_ends_the_run() {
    let mut engine = Engine::new("spec".to_string(), false);
    match engine.step(Event::Judged("First result is better.".to_string())) {
        Action::Finish(o) => assert_eq!(o, Outcome::UnexpectedEvent),
        other => panic!("unexpected {:?}", other),
    }
    assert_eq!(engine.phase, Phase::Done);
    assert_eq!(Outcome::UnexpectedEvent.exit_code(), 1);
}

#[test]
fn verdict_parsing_exactness() {
    assert_eq!(parse_verdict("First result is better."), Verdict::OriginalBetter);
    assert_eq!(parse_verdict("First result is better. "), Verdict::OriginalBetter);
    assert_eq!(parse_verdict("first result is better."), Verdict::Ambiguous);
    assert_eq!(parse_verdict("\n\tThe second implementation is better.\r\n"), Verdict::CandidateBetter);
    assert_eq!(parse_verdict("The second implementation is better"), Verdict::Ambiguous);
    assert_eq!(parse_verdict("I think both are fine."), Verdict::Ambiguous);
    assert_eq!(parse_verdict(""), Verdict::Ambiguous);
}

#[test]
fn reverse_run_uses_its_own_prompts_and_sentences() {
    let mut engine = Engine::new_in(Direction::Reverse, "fn main() {}".to_string(), false);
    match engine.step(Event::ArtifactRead(None)) {
        Action::Generate(p) => assert_eq!(p, format!("{}fn main() {{}}", REV_BOOTSTRAP_HEAD)),
        other => panic!("unexpected {:?}", other),
    }
    let mut ws = Workspace::new(Some("old spec".to_string()));
    let mut engine = Engine::new_in(Direction::Reverse, "fn main() {}".to_string(), false);
    let mut seen = Vec::new();
    let outcome = run(&mut engine, &mut ws, "new spec", &clean, "The second spec is better.", &mut seen);
    assert_eq!(outcome, Outcome::Committed);
    assert_eq!(ws.artifact, Some("new spec".to_string()));
    assert!(seen[0].contains("is accurately described by the specification"));
    assert!(seen[2].contains("First specification is better."));
    assert_eq!(parse_verdict_in(Direction::Reverse, "First specification is better.\n"), Verdict::OriginalBetter);
    assert_eq!(parse_verdict_in(Direction::Reverse, "First result is better."), Verdict::Ambiguous);
    assert_eq!(parse_verdict_in(Direction::Forward, "First result is better."), Verdict::OriginalBetter);
}
