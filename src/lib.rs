//! A verified engine for the generate / verify / judge / commit-or-rollback
//! refinement workflow that turns a textual specification into a persisted
//! artifact, together with the reference expansion used to load specifications.
//!
//! - [`engine`]: the state machine of one run, and the laws it obeys;
//! - [`audit`]: the artifact's side files and the file operations on them;
//! - [`verdict`]: the Judge's verdict and its exact parsing;
//! - [`prompt`]: the Generator and Judge prompts;
//! - [`splice`]: `{!path!}` expansion of specification files;
//! - [`diagnostics`]: the Verifier's diagnostics and service replies, read from JSON;
//! - [`text`]: character-level string helpers;
//! - [`numbering`], [`tally`], [`rename`]: numbered file families, byte and
//!   line counts of file pairs, and bulk rename planning.

pub mod text;
pub mod verdict;
pub mod audit;
pub mod prompt;
pub mod engine;
pub mod splice;
pub mod diagnostics;
pub mod numbering;
pub mod tally;
pub mod rename;
