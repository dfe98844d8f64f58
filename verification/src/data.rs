//! The session-data snapshot: one read-only record per render pass. Every
//! field is optional; absence is the normal signal that dependent widgets
//! render nothing.

use vstd::prelude::*;

verus! {

/// Identity of the agent driving the session.
#[derive(Clone, Debug)]
pub struct AgentInfo {
    pub name: Option<String>,
}

/// Identity of the model in use.
#[derive(Clone, Debug)]
pub struct ModelInfo {
    pub id: Option<String>,
    pub display_name: Option<String>,
}

/// Cost and usage aggregates for the session. Money is carried in hundredths
/// of a USD (cents), so the amounts stay exact integers.
#[derive(Clone, Debug)]
pub struct CostInfo {
    pub total_duration_ms: Option<u64>,
    pub total_api_duration_ms: Option<u64>,
    pub total_cost_cents: Option<u64>,
    pub total_lines_added: Option<u64>,
    pub total_lines_removed: Option<u64>,
}

/// Token counts of the current context window usage.
#[derive(Clone, Debug)]
pub struct UsageInfo {
    pub input_tokens: Option<u64>,
    pub output_tokens: Option<u64>,
    pub cache_creation_input_tokens: Option<u64>,
    pub cache_read_input_tokens: Option<u64>,
}

/// Context-window usage. The used share is carried in hundredths of a
/// percent, so fractional percentages stay exact integers.
#[derive(Clone, Debug)]
pub struct ContextWindowInfo {
    pub used_percent_hundredths: Option<u64>,
    pub current_usage: Option<UsageInfo>,
}

/// The workspace the session runs in.
#[derive(Clone, Debug)]
pub struct WorkspaceInfo {
    pub current_dir: Option<String>,
}

/// Editor mode reported by the session.
#[derive(Clone, Debug)]
pub struct VimInfo {
    pub mode: Option<String>,
}

/// The output style selected for the session.
#[derive(Clone, Debug)]
pub struct OutputStyleInfo {
    pub name: Option<String>,
}

/// The full input snapshot, read once per invocation and never mutated.
#[derive(Clone, Debug)]
pub struct SessionData {
    pub agent: Option<AgentInfo>,
    pub model: Option<ModelInfo>,
    pub cost: Option<CostInfo>,
    pub context_window: Option<ContextWindowInfo>,
    pub workspace: Option<WorkspaceInfo>,
    pub cwd: Option<String>,
    pub vim: Option<VimInfo>,
    pub output_style: Option<OutputStyleInfo>,
    pub version: Option<String>,
    pub session_id: Option<String>,
    pub exceeds_200k_tokens: Option<bool>,
}

impl SessionData {
    /// A snapshot with every field absent.
    pub fn empty() -> (r: SessionData)
        ensures
            r.agent is None,
            r.model is None,
            r.cost is None,
            r.context_window is None,
            r.workspace is None,
            r.cwd is None,
            r.vim is None,
            r.output_style is None,
            r.version is None,
            r.session_id is None,
            r.exceeds_200k_tokens is None,
    {
        SessionData {
            agent: None,
            model: None,
            cost: None,
            context_window: None,
            workspace: None,
            cwd: None,
            vim: None,
            output_style: None,
            version: None,
            session_id: None,
            exceeds_200k_tokens: None,
        }
    }
}

} // verus!
