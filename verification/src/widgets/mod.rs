//! Widgets: each turns the session snapshot and its per-widget configuration
//! into one short text fragment with a display width, a declarative priority
//! and a visibility flag. The registry resolves a configured widget-type name
//! to its implementation.

pub mod agent_name;
pub mod api_duration;
pub mod block_timer;
pub mod context;
pub mod cost;
pub mod custom_command;
pub mod custom_text;
pub mod cwd;
pub mod duration;
pub mod git_branch;
pub mod git_status;
pub mod git_worktree;
pub mod lines_changed;
pub mod terminal_width;
pub mod exceeds_tokens;
pub mod model;
pub mod output_style;
pub mod separator;
pub mod session_id;
pub mod tokens;
pub mod version;
pub mod vim_mode;

use vstd::prelude::*;
use crate::config::WidgetConfig;
use crate::data::SessionData;
use crate::resolve::ResolvedInputs;
use crate::text::{byte_len, byte_width, display_width_of, measure_width, str_eq};

verus! {

/// The result of one widget evaluation.
#[derive(Clone, Debug)]
pub struct WidgetOutput {
    /// The rendered text, in logical form, not yet styled.
    pub text: String,
    /// The text's on-screen column count, as the widget computed it (most
    /// widgets use the byte length as a proxy).
    pub display_width: usize,
    /// A declarative ranking; carried but never consulted for ordering.
    pub priority: u32,
    /// Whether this widget contributes to the line at all.
    pub visible: bool,
}

/// The mathematical shape of a widget output.
#[verifier::ext_equal]
pub ghost struct WidgetModel {
    pub text: Seq<char>,
    pub width: int,
    pub priority: int,
    pub visible: bool,
}

impl WidgetOutput {
    /// The model this output realizes.
    pub open spec fn model(self) -> WidgetModel {
        WidgetModel {
            text: self.text@,
            width: self.display_width as int,
            priority: self.priority as int,
            visible: self.visible,
        }
    }
}

/// The invisible output: empty text, zero width.
pub open spec fn hidden_model(priority: int) -> WidgetModel {
    WidgetModel { text: Seq::empty(), width: 0, priority, visible: false }
}

/// A count that is absent counts as zero.
pub open spec fn or_zero(x: Option<u64>) -> int {
    match x {
        Some(v) => v as int,
        None => 0,
    }
}

/// The byte length of a text, clipped to the machine word it is reported in.
pub open spec fn byte_w(s: Seq<char>) -> int {
    byte_len(s) as usize as int
}

/// A visible output whose width is the text's byte length.
pub open spec fn shown_model(text: Seq<char>, priority: int) -> WidgetModel {
    WidgetModel { text, width: byte_w(text), priority, visible: true }
}

/// A visible output whose width is the text's true column count.
pub open spec fn shown_measured_model(text: Seq<char>, priority: int) -> WidgetModel {
    WidgetModel { text, width: display_width_of(text) as int, priority, visible: true }
}

/// Build the invisible output a widget reports when it has nothing to show.
pub fn hidden(priority: u32) -> (out: WidgetOutput)
    ensures
        out.model() == hidden_model(priority as int),
{
    let out = WidgetOutput {
        text: String::new(),
        display_width: 0,
        priority,
        visible: false,
    };
    proof {
        assert(out.model() =~= hidden_model(priority as int));
    }
    out
}

/// Build a visible output, measuring width as the text's byte length.
pub fn shown(text: String, priority: u32) -> (out: WidgetOutput)
    ensures
        out.model() == shown_model(text@, priority as int),
{
    let w = byte_width(text.as_str());
    let out = WidgetOutput { text, display_width: w, priority, visible: true };
    proof {
        assert(out.model() =~= shown_model(out.text@, priority as int));
    }
    out
}

/// Build a visible output, measuring width as the text's true column count.
pub fn shown_measured(text: String, priority: u32) -> (out: WidgetOutput)
    ensures
        out.model() == shown_measured_model(text@, priority as int),
{
    let w = measure_width(text.as_str());
    let out = WidgetOutput { text, display_width: w, priority, visible: true };
    proof {
        assert(out.model() =~= shown_measured_model(out.text@, priority as int));
    }
    out
}

/// What the widget a type name denotes shows for the given snapshot,
/// configuration and resolved lookups; nothing for an unrecognized name.
pub open spec fn registry_model(
    wt: Seq<char>,
    data: SessionData,
    raw: bool,
    meta: Seq<(String, String)>,
    res: ResolvedInputs,
) -> Option<WidgetModel> {
    if wt == "agent-name"@ {
        Some(agent_name::agent_name_model(data))
    } else if wt == "api-duration"@ {
        Some(api_duration::api_duration_model(data, raw))
    } else if wt == "block-timer"@ {
        Some(block_timer::block_timer_model(data, meta))
    } else if wt == "context-percentage"@ {
        Some(context::context_percentage_model(data, meta))
    } else if wt == "context-length"@ {
        Some(context::context_length_model(data, raw))
    } else if wt == "session-cost"@ {
        Some(cost::session_cost_model(data, raw, meta))
    } else if wt == "custom-command"@ {
        Some(custom_command::custom_command_model(meta, res.command_output))
    } else if wt == "custom-text"@ {
        Some(custom_text::custom_text_model(meta))
    } else if wt == "cwd"@ {
        Some(cwd::cwd_model(data, meta, cwd::opt_view(res.home_dir)))
    } else if wt == "session-duration"@ {
        Some(duration::session_duration_model(data, raw, meta))
    } else if wt == "exceeds-tokens"@ {
        Some(exceeds_tokens::exceeds_tokens_model(data))
    } else if wt == "git-branch"@ {
        Some(git_branch::git_branch_model(data, res.git_branch))
    } else if wt == "git-status"@ {
        Some(git_status::git_status_model(data, res.git_status))
    } else if wt == "git-worktree"@ {
        Some(git_worktree::git_worktree_model(data, raw, res.worktree))
    } else if wt == "lines-changed"@ {
        Some(lines_changed::lines_changed_model(data, raw))
    } else if wt == "model"@ {
        Some(model::model_model(data, raw))
    } else if wt == "output-style"@ {
        Some(output_style::output_style_model(data))
    } else if wt == "separator"@ {
        Some(separator::separator_model(meta))
    } else if wt == "session-id"@ {
        Some(session_id::session_id_model(data))
    } else if wt == "terminal-width"@ {
        Some(terminal_width::terminal_width_model(res.terminal_cols, raw))
    } else if wt == "tokens-input"@ {
        Some(tokens::token_input_model(data, raw))
    } else if wt == "tokens-output"@ {
        Some(tokens::token_output_model(data, raw))
    } else if wt == "tokens-cached"@ {
        Some(tokens::token_cached_model(data, raw))
    } else if wt == "tokens-total"@ {
        Some(tokens::token_total_model(data, raw))
    } else if wt == "version"@ {
        Some(version::version_model(data))
    } else if wt == "vim-mode"@ {
        Some(vim_mode::vim_mode_model(data))
    } else {
        None
    }
}

/// A widget that reports itself invisible shows empty text and zero width:
/// whatever widget a name denotes, a non-visible output carries nothing.
pub proof fn lemma_invisible_output_is_empty(
    wt: Seq<char>,
    data: SessionData,
    raw: bool,
    meta: Seq<(String, String)>,
    res: ResolvedInputs,
)
    ensures
        (match registry_model(wt, data, raw, meta, res) {
            Some(m) => !m.visible ==> m.text == Seq::<char>::empty() && m.width == 0,
            None => true,
        }),
{
}

/// A widget whose required input is absent renders nothing: on a snapshot
/// with every field absent, empty metadata and failed lookups, every known
/// widget is invisible, except the two that need no input at all (the
/// separator and the terminal-width display).
pub proof fn lemma_absent_inputs_render_nothing(
    wt: Seq<char>,
    data: SessionData,
    raw: bool,
    meta: Seq<(String, String)>,
    res: ResolvedInputs,
)
    requires
        data.agent is None,
        data.model is None,
        data.cost is None,
        data.context_window is None,
        data.workspace is None,
        data.cwd is None,
        data.vim is None,
        data.output_style is None,
        data.version is None,
        data.session_id is None,
        data.exceeds_200k_tokens is None,
        meta.len() == 0,
        res.command_output is None,
        res.worktree is None,
    ensures
        (match registry_model(wt, data, raw, meta, res) {
            Some(m) => m.visible ==> wt == "separator"@ || wt == "terminal-width"@,
            None => true,
        }),
{
}

/// The static widget table: resolves a configured widget-type name to its
/// implementation and delegates to it.
pub struct WidgetRegistry;

impl WidgetRegistry {
    pub fn new() -> WidgetRegistry {
        WidgetRegistry
    }

    /// Evaluate the widget a type name denotes; an unrecognized name yields
    /// nothing and is silently dropped by the caller.
    pub fn render(
        &self,
        widget_type: &str,
        data: &SessionData,
        config: &WidgetConfig,
        res: &ResolvedInputs,
    ) -> (r: Option<WidgetOutput>)
        ensures
            (match r {
                Some(out) => registry_model(
                    widget_type@,
                    *data,
                    config.raw_value,
                    config.metadata@,
                    *res,
                ) == Some(out.model()),
                None => registry_model(
                    widget_type@,
                    *data,
                    config.raw_value,
                    config.metadata@,
                    *res,
                ) is None,
            }),
    {
        if str_eq(widget_type, "agent-name") {
            Some(agent_name::AgentNameWidget.render(data, config))
        } else if str_eq(widget_type, "api-duration") {
            Some(api_duration::ApiDurationWidget.render(data, config))
        } else if str_eq(widget_type, "block-timer") {
            Some(block_timer::BlockTimerWidget.render(data, config))
        } else if str_eq(widget_type, "context-percentage") {
            Some(context::ContextPercentageWidget.render(data, config))
        } else if str_eq(widget_type, "context-length") {
            Some(context::ContextLengthWidget.render(data, config))
        } else if str_eq(widget_type, "session-cost") {
            Some(cost::SessionCostWidget.render(data, config))
        } else if str_eq(widget_type, "custom-command") {
            Some(custom_command::CustomCommandWidget.render(data, config, &res.command_output))
        } else if str_eq(widget_type, "custom-text") {
            Some(custom_text::CustomTextWidget.render(data, config))
        } else if str_eq(widget_type, "cwd") {
            Some(cwd::CwdWidget.render(data, config, &res.home_dir))
        } else if str_eq(widget_type, "session-duration") {
            Some(duration::SessionDurationWidget.render(data, config))
        } else if str_eq(widget_type, "exceeds-tokens") {
            Some(exceeds_tokens::ExceedsTokensWidget.render(data, config))
        } else if str_eq(widget_type, "git-branch") {
            Some(git_branch::GitBranchWidget.render(data, config, &res.git_branch))
        } else if str_eq(widget_type, "git-status") {
            Some(git_status::GitStatusWidget.render(data, config, &res.git_status))
        } else if str_eq(widget_type, "git-worktree") {
            Some(git_worktree::GitWorktreeWidget.render(data, config, &res.worktree))
        } else if str_eq(widget_type, "lines-changed") {
            Some(lines_changed::LinesChangedWidget.render(data, config))
        } else if str_eq(widget_type, "model") {
            Some(model::ModelWidget.render(data, config))
        } else if str_eq(widget_type, "output-style") {
            Some(output_style::OutputStyleWidget.render(data, config))
        } else if str_eq(widget_type, "separator") {
            Some(separator::SeparatorWidget.render(data, config))
        } else if str_eq(widget_type, "session-id") {
            Some(session_id::SessionIdWidget.render(data, config))
        } else if str_eq(widget_type, "terminal-width") {
            Some(terminal_width::TerminalWidthWidget.render(data, config, &res.terminal_cols))
        } else if str_eq(widget_type, "tokens-input") {
            Some(tokens::TokenInputWidget.render(data, config))
        } else if str_eq(widget_type, "tokens-output") {
            Some(tokens::TokenOutputWidget.render(data, config))
        } else if str_eq(widget_type, "tokens-cached") {
            Some(tokens::TokenCachedWidget.render(data, config))
        } else if str_eq(widget_type, "tokens-total") {
            Some(tokens::TokenTotalWidget.render(data, config))
        } else if str_eq(widget_type, "version") {
            Some(version::VersionWidget.render(data, config))
        } else if str_eq(widget_type, "vim-mode") {
            Some(vim_mode::VimModeWidget.render(data, config))
        } else {
            None
        }
    }
}

} // verus!
