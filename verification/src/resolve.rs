//! Results of the opaque lookups a render pass may need: environment, cached
//! subprocess output, source-control queries. The caller gathers these ahead
//! of the pass and hands them in as plain values; the widgets' verified logic
//! then decides what to show for every possible outcome.

use vstd::prelude::*;

verus! {

/// What the source-control branch lookup produced.
#[derive(Clone, Debug)]
pub enum GitBranchSource {
    /// A fresh-enough cached value, used verbatim after trimming.
    Cached(String),
    /// Raw standard output of the branch query and of the detached-head
    /// fallback query; absent where a query failed.
    Commands { branch: Option<String>, head: Option<String> },
}

/// What the source-control status lookup produced.
#[derive(Clone, Debug)]
pub enum GitStatusSource {
    /// A fresh-enough cached value, used verbatim after trimming.
    Cached(String),
    /// Raw porcelain-format status output, one entry per line.
    Porcelain(String),
    /// The query failed.
    Unavailable,
}

/// The answers of the source-control worktree queries, gathered by the
/// caller (path canonicalization needs the file system).
#[derive(Clone, Debug)]
pub struct WorktreeResolution {
    /// Trimmed output of the toplevel query.
    pub toplevel: String,
    /// Trimmed output of the common-directory query.
    pub git_common_dir: String,
    /// The common directory resolved against the toplevel and canonicalized.
    pub common_resolved: String,
    /// The toplevel's own `.git` path, canonicalized.
    pub toplevel_git_resolved: String,
}

/// Every outside lookup result one render pass may consume.
#[derive(Clone, Debug)]
pub struct ResolvedInputs {
    /// The user's home directory, if known.
    pub home_dir: Option<String>,
    /// Detected terminal column count, if detection succeeded.
    pub terminal_cols: Option<u16>,
    /// The custom command's resolved output: the cached value within its
    /// time-to-live, else the first non-empty trimmed line the command
    /// printed; absent where the command failed or printed nothing.
    pub command_output: Option<String>,
    pub git_branch: GitBranchSource,
    pub git_status: GitStatusSource,
    pub worktree: Option<WorktreeResolution>,
}

impl ResolvedInputs {
    /// Inputs for a pass where no outside lookup produced anything.
    pub fn none() -> (r: ResolvedInputs)
        ensures
            r.home_dir is None,
            r.terminal_cols is None,
            r.command_output is None,
            r.git_branch == (GitBranchSource::Commands { branch: None, head: None }),
            r.git_status is Unavailable,
            r.worktree is None,
    {
        ResolvedInputs {
            home_dir: None,
            terminal_cols: None,
            command_output: None,
            git_branch: GitBranchSource::Commands { branch: None, head: None },
            git_status: GitStatusSource::Unavailable,
            worktree: None,
        }
    }
}

} // verus!
