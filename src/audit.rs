//! The files that surround an artifact path `P` — the artifact `P` itself, its
//! draft `P.draft`, its backup `P.orig` and its rejected copy `P.rej` — and
//! the file operations the engine asks for.  [`Workspace`] is an in-memory
//! picture of those files, on which every operation has an exact meaning.

use vstd::prelude::*;

verus! {

/// One file operation on the files of an artifact.  Operations that write
/// content always write the candidate of the current run.
#[derive(Clone, Copy, Debug, PartialEq, Eq, Structural)]
pub enum FileOp {
    /// Replace the artifact with the candidate (write to a temporary file, then rename).
    WriteArtifact,
    /// Write the candidate to the draft file.
    WriteDraft,
    /// Rename the artifact to the backup, then put the candidate in place of the artifact.
    SwapInCandidate,
    /// Rename the backup back over the artifact, when there is a backup.
    RestoreBackup,
    /// Remove the backup, which the accepted candidate supersedes.
    DiscardBackup,
    /// Remove the draft.
    RemoveDraft,
    /// Rename the draft to the rejected file, when there is a draft.
    RejectDraft,
    /// Set the artifact's modification time to now.
    TouchArtifact,
}

/// Contents of the files of one artifact path (`None`: no such file), and
/// whether the artifact's modification time was set during the run.
pub ghost struct Files {
    pub artifact: Option<Seq<char>>,
    pub draft: Option<Seq<char>>,
    pub backup: Option<Seq<char>>,
    pub rejected: Option<Seq<char>>,
    pub touched: bool,
}

/// The files after one operation, `candidate` being the run's candidate.
pub open spec fn apply_op(f: Files, op: FileOp, candidate: Seq<char>) -> Files {
    match op {
        FileOp::WriteArtifact => Files { artifact: Some(candidate), ..f },
        FileOp::WriteDraft => Files { draft: Some(candidate), ..f },
        FileOp::SwapInCandidate => Files { artifact: Some(candidate), backup: f.artifact, ..f },
        FileOp::RestoreBackup => match f.backup {
            Some(b) => Files { artifact: Some(b), backup: None, ..f },
            None => f,
        },
        FileOp::DiscardBackup => Files { backup: None, ..f },
        FileOp::RemoveDraft => Files { draft: None, ..f },
        FileOp::RejectDraft => match f.draft {
            Some(d) => Files { rejected: Some(d), draft: None, ..f },
            None => f,
        },
        FileOp::TouchArtifact => Files { touched: true, ..f },
    }
}

/// The files after a sequence of operations, applied first to last.
pub open spec fn apply_ops(f: Files, ops: Seq<FileOp>, candidate: Seq<char>) -> Files
    decreases ops.len(),
{
    if ops.len() == 0 {
        f
    } else {
        apply_ops(apply_op(f, ops[0], candidate), ops.drop_first(), candidate)
    }
}

pub open spec fn opt_view(o: Option<String>) -> Option<Seq<char>> {
    match o {
        Some(s) => Some(s@),
        None => None,
    }
}

/// An in-memory picture of the files of one artifact path.
#[derive(Debug)]
pub struct Workspace {
    pub artifact: Option<String>,
    pub draft: Option<String>,
    pub backup: Option<String>,
    pub rejected: Option<String>,
    pub touched: bool,
}

impl View for Workspace {
    type V = Files;

    open spec fn view(&self) -> Files {
        Files {
            artifact: opt_view(self.artifact),
            draft: opt_view(self.draft),
            backup: opt_view(self.backup),
            rejected: opt_view(self.rejected),
            touched: self.touched,
        }
    }
}

impl Workspace {
    /// A workspace whose artifact holds `artifact` (or is missing), with no side files.
    pub fn new(artifact: Option<String>) -> (w: Workspace)
        ensures
            w@.artifact == opt_view(artifact),
            w@.draft is None,
            w@.backup is None,
            w@.rejected is None,
            !w@.touched,
    {
        Workspace { artifact, draft: None, backup: None, rejected: None, touched: false }
    }

    /// Performs one operation, `candidate` being the run's candidate.
    pub fn apply(&mut self, op: FileOp, candidate: &str)
        ensures
            final(self)@ == apply_op(old(self)@, op, candidate@),
    {
        match op {
            FileOp::WriteArtifact => {
                self.artifact = Some(candidate.to_owned());
            },
            FileOp::WriteDraft => {
                self.draft = Some(candidate.to_owned());
            },
            FileOp::SwapInCandidate => {
                self.backup = self.artifact.take();
                self.artifact = Some(candidate.to_owned());
            },
            FileOp::RestoreBackup => {
                if self.backup.is_some() {
                    self.artifact = self.backup.take();
                }
            },
            FileOp::DiscardBackup => {
                self.backup = None;
            },
            FileOp::RemoveDraft => {
                self.draft = None;
            },
            FileOp::RejectDraft => {
                if self.draft.is_some() {
                    self.rejected = self.draft.take();
                }
            },
            FileOp::TouchArtifact => {
                self.touched = true;
            },
        }
    }

    /// Performs `ops` first to last.
    pub fn apply_all(&mut self, ops: &Vec<FileOp>, candidate: &str)
        ensures
            final(self)@ == apply_ops(old(self)@, ops@, candidate@),
    {
        let ghost start = self@;
        let mut i: usize = 0;
        proof {
            assert(ops@.skip(0) =~= ops@);
        }
        while i < ops.len()
            invariant
                0 <= i <= ops.len(),
                apply_ops(start, ops@, candidate@) == apply_ops(self@, ops@.skip(i as int), candidate@),
            decreases ops.len() - i,
        {
            proof {
                assert(ops@.skip(i as int).drop_first() =~= ops@.skip(i as int + 1));
            }
            self.apply(ops[i], candidate);
            i = i + 1;
        }
        proof {
            assert(ops@.skip(i as int) =~= Seq::<FileOp>::empty());
        }
    }
}

} // verus!
