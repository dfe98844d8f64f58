//! Widget behavior: each widget's text, width and visibility on concrete
//! session snapshots, and the registry's dispatch.

use statusline::cache::{cache_fresh, COMMAND_CACHE_TTL_SECS, GIT_CACHE_TTL_SECS};
use statusline::config::WidgetConfig;
use statusline::data::{
    AgentInfo, ContextWindowInfo, CostInfo, ModelInfo, OutputStyleInfo, SessionData, UsageInfo,
    VimInfo, WorkspaceInfo,
};
use statusline::resolve::{GitBranchSource, GitStatusSource, ResolvedInputs, WorktreeResolution};
use statusline::widgets::api_duration::ApiDurationWidget;
use statusline::widgets::block_timer::{format_hm, BlockTimerWidget};
use statusline::widgets::context::{ContextLengthWidget, ContextPercentageWidget};
use statusline::widgets::cost::SessionCostWidget;
use statusline::widgets::custom_command::{cache_path as command_cache_path, CustomCommandWidget};
use statusline::widgets::custom_text::CustomTextWidget;
use statusline::widgets::cwd::{abbreviate_home, fish_style, last_n_segments, CwdWidget};
use statusline::widgets::duration::{format_duration, SessionDurationWidget};
use statusline::widgets::exceeds_tokens::ExceedsTokensWidget;
use statusline::widgets::git_branch::{cache_path as git_cache_path, GitBranchWidget};
use statusline::widgets::git_status::{format_status, GitStatusWidget};
use statusline::widgets::git_worktree::GitWorktreeWidget;
use statusline::widgets::lines_changed::LinesChangedWidget;
use statusline::widgets::model::ModelWidget;
use statusline::widgets::output_style::OutputStyleWidget;
use statusline::widgets::separator::SeparatorWidget;
use statusline::widgets::session_id::SessionIdWidget;
use statusline::widgets::terminal_width::TerminalWidthWidget;
use statusline::widgets::tokens::{format_tokens, TokenInputWidget, TokenTotalWidget};
use statusline::widgets::version::VersionWidget;
use statusline::widgets::vim_mode::VimModeWidget;
use statusline::widgets::WidgetRegistry;

fn plain_config() -> WidgetConfig {
    WidgetConfig { raw_value: false, metadata: Vec::new() }
}

fn raw_config() -> WidgetConfig {
    WidgetConfig { raw_value: true, metadata: Vec::new() }
}

fn meta_config(pairs: &[(&str, &str)]) -> WidgetConfig {
    WidgetConfig {
        raw_value: false,
        metadata: pairs.iter().map(|(k, v)| (k.to_string(), v.to_string())).collect(),
    }
}

fn with_cost(cost: CostInfo) -> SessionData {
    let mut d = SessionData::empty();
    d.cost = Some(cost);
    d
}

fn cost_only_cents(cents: u64) -> CostInfo {
    CostInfo {
        total_duration_ms: None,
        total_api_duration_ms: None,
        total_cost_cents: Some(cents),
        total_lines_added: None,
        total_lines_removed: None,
    }
}

#[test]
fn token_formatting_compact() {
    assert_eq!(format_tokens(1_500_000, true), "1.5M");
    assert_eq!(format_tokens(2_300, true), "2K");
    assert_eq!(format_tokens(999, true), "999");
    assert_eq!(format_tokens(1_000_000, true), "1.0M");
    assert_eq!(format_tokens(2_350_000, true), "2.4M");
}

#[test]
fn token_formatting_verbose() {
    assert_eq!(format_tokens(1_234_567, false), "1,234,567");
    assert_eq!(format_tokens(999, false), "999");
}

#[test]
fn cost_widget_plain() {
    let data = with_cost(cost_only_cents(1250));
    let out = SessionCostWidget.render(&data, &plain_config());
    assert!(out.visible);
    assert_eq!(out.text, "$12.50");
    assert_eq!(out.display_width, 6);
}

#[test]
fn cost_widget_burn_rate() {
    let mut cost = cost_only_cents(1250);
    cost.total_duration_ms = Some(3_600_000);
    let data = with_cost(cost);
    let out = SessionCostWidget.render(&data, &meta_config(&[("burn_rate", "true")]));
    assert_eq!(out.text, "$12.50 ($12.50/hr)");
}

#[test]
fn cost_widget_absent() {
    let out = SessionCostWidget.render(&SessionData::empty(), &plain_config());
    assert!(!out.visible);
    assert_eq!(out.text, "");
    assert_eq!(out.display_width, 0);
}

#[test]
fn context_percentage_inverse() {
    let mut d = SessionData::empty();
    d.context_window = Some(ContextWindowInfo {
        used_percent_hundredths: Some(7300),
        current_usage: None,
    });
    let out = ContextPercentageWidget.render(&d, &meta_config(&[("inverse", "true")]));
    assert!(out.visible);
    assert_eq!(out.text, "27%");
    let plain = ContextPercentageWidget.render(&d, &plain_config());
    assert_eq!(plain.text, "73%");
}

#[test]
fn context_percentage_bar() {
    let mut d = SessionData::empty();
    d.context_window = Some(ContextWindowInfo {
        used_percent_hundredths: Some(7300),
        current_usage: None,
    });
    let out = ContextPercentageWidget.render(&d, &meta_config(&[("bar", "true")]));
    assert_eq!(out.text, "▓▓▓▓▓▓▓░░░ 73%");
}

#[test]
fn context_length_totals() {
    let mut d = SessionData::empty();
    d.context_window = Some(ContextWindowInfo {
        used_percent_hundredths: None,
        current_usage: Some(UsageInfo {
            input_tokens: Some(1000),
            output_tokens: Some(9999),
            cache_creation_input_tokens: Some(200),
            cache_read_input_tokens: Some(300),
        }),
    });
    let out = ContextLengthWidget.render(&d, &plain_config());
    assert_eq!(out.text, "1K");
    let raw = ContextLengthWidget.render(&d, &raw_config());
    assert_eq!(raw.text, "1500");
    assert_eq!(ContextLengthWidget::format_compact(1_500_000), "1.5M");
}

#[test]
fn token_widgets() {
    let mut d = SessionData::empty();
    d.context_window = Some(ContextWindowInfo {
        used_percent_hundredths: None,
        current_usage: Some(UsageInfo {
            input_tokens: Some(2300),
            output_tokens: Some(50),
            cache_creation_input_tokens: Some(10),
            cache_read_input_tokens: Some(40),
        }),
    });
    assert_eq!(TokenInputWidget.render(&d, &plain_config()).text, "In: 2,300");
    assert_eq!(TokenInputWidget.render(&d, &raw_config()).text, "2K");
    assert_eq!(TokenTotalWidget.render(&d, &plain_config()).text, "Total: 2,400");
    let absent = TokenInputWidget.render(&SessionData::empty(), &plain_config());
    assert!(!absent.visible && absent.text.is_empty() && absent.display_width == 0);
}

#[test]
fn duration_formats() {
    assert_eq!(format_duration(3_661_000, false), "1h 1m");
    assert_eq!(format_duration(3_661_000, true), "1h1m");
    assert_eq!(format_duration(61_000, false), "1m 1s");
    assert_eq!(format_duration(61_000, true), "1m1s");
}

#[test]
fn duration_widget_api_ratio() {
    let data = with_cost(CostInfo {
        total_duration_ms: Some(10_000),
        total_api_duration_ms: Some(2_500),
        total_cost_cents: None,
        total_lines_added: None,
        total_lines_removed: None,
    });
    let out = SessionDurationWidget.render(&data, &meta_config(&[("api_ratio", "true")]));
    assert_eq!(out.text, "0m 10s (API: 25%)");
    let plain = SessionDurationWidget.render(&data, &plain_config());
    assert_eq!(plain.text, "0m 10s");
}

#[test]
fn api_duration_widget() {
    let data = with_cost(CostInfo {
        total_duration_ms: Some(10_000),
        total_api_duration_ms: Some(2_500),
        total_cost_cents: None,
        total_lines_added: None,
        total_lines_removed: None,
    });
    assert_eq!(ApiDurationWidget.render(&data, &plain_config()).text, "API: 25%");
    assert_eq!(ApiDurationWidget.render(&data, &raw_config()).text, "25%");
    let zero = with_cost(CostInfo {
        total_duration_ms: Some(0),
        total_api_duration_ms: Some(2_500),
        total_cost_cents: None,
        total_lines_added: None,
        total_lines_removed: None,
    });
    assert!(!ApiDurationWidget.render(&zero, &plain_config()).visible);
}

#[test]
fn block_timer_widget() {
    assert_eq!(format_hm(14_400_000), "4h0m");
    assert_eq!(format_hm(300_000), "5m");
    let data = with_cost(CostInfo {
        total_duration_ms: Some(3_600_000),
        total_api_duration_ms: None,
        total_cost_cents: None,
        total_lines_added: None,
        total_lines_removed: None,
    });
    let out = BlockTimerWidget.render(&data, &plain_config());
    assert_eq!(out.text, "Block: 4h0m left");
    let bar = BlockTimerWidget.render(
        &data,
        &meta_config(&[("bar", "true"), ("bar_width", "10")]),
    );
    assert_eq!(bar.text, "▓▓░░░░░░░░ 4h0m");
    let bad_width = BlockTimerWidget.render(
        &data,
        &meta_config(&[("bar", "true"), ("bar_width", "x")]),
    );
    assert_eq!(bad_width.text, "▓▓▓░░░░░░░░░░░░░ 4h0m");
}

#[test]
fn lines_changed_widget() {
    let data = with_cost(CostInfo {
        total_duration_ms: None,
        total_api_duration_ms: None,
        total_cost_cents: None,
        total_lines_added: Some(5),
        total_lines_removed: Some(3),
    });
    assert_eq!(LinesChangedWidget.render(&data, &plain_config()).text, "+5 -3");
    assert_eq!(LinesChangedWidget.render(&data, &raw_config()).text, "+5-3");
    assert!(!LinesChangedWidget.render(&SessionData::empty(), &plain_config()).visible);
}

#[test]
fn model_widget_names() {
    let mut d = SessionData::empty();
    d.model = Some(ModelInfo {
        id: Some("opus-1".to_string()),
        display_name: Some("Opus".to_string()),
    });
    assert_eq!(ModelWidget.render(&d, &plain_config()).text, "Opus");
    assert_eq!(ModelWidget.render(&d, &raw_config()).text, "opus-1");
    assert!(!ModelWidget.render(&SessionData::empty(), &plain_config()).visible);
}

#[test]
fn small_widgets() {
    let mut d = SessionData::empty();
    d.agent = Some(AgentInfo { name: Some("helper".to_string()) });
    d.vim = Some(VimInfo { mode: None });
    d.version = Some("1.2.3".to_string());
    d.session_id = Some("abcdefghij".to_string());
    d.output_style = Some(OutputStyleInfo { name: Some("explanatory".to_string()) });
    d.exceeds_200k_tokens = Some(true);
    assert_eq!(
        statusline::widgets::agent_name::AgentNameWidget.render(&d, &plain_config()).text,
        "helper"
    );
    assert_eq!(VimModeWidget.render(&d, &plain_config()).text, "NORMAL");
    assert_eq!(VersionWidget.render(&d, &plain_config()).text, "v1.2.3");
    assert_eq!(SessionIdWidget.render(&d, &plain_config()).text, "abcdefgh");
    assert_eq!(OutputStyleWidget.render(&d, &plain_config()).text, "explanatory");
    assert_eq!(ExceedsTokensWidget.render(&d, &plain_config()).text, "!200K");
    let mut dd = SessionData::empty();
    dd.version = Some("v2".to_string());
    dd.output_style = Some(OutputStyleInfo { name: Some("default".to_string()) });
    assert_eq!(VersionWidget.render(&dd, &plain_config()).text, "v2");
    assert!(!OutputStyleWidget.render(&dd, &plain_config()).visible);
}

#[test]
fn custom_text_measures_wide_characters() {
    let out = CustomTextWidget.render(&SessionData::empty(), &meta_config(&[("text", "你")]));
    assert!(out.visible);
    assert_eq!(out.text, "你");
    assert_eq!(out.display_width, 2);
    assert!(!CustomTextWidget.render(&SessionData::empty(), &plain_config()).visible);
}

#[test]
fn separator_widget_char() {
    let out = SeparatorWidget.render(&SessionData::empty(), &plain_config());
    assert_eq!(out.text, "|");
    assert_eq!(out.display_width, 1);
    let starred = SeparatorWidget.render(&SessionData::empty(), &meta_config(&[("char", "*")]));
    assert_eq!(starred.text, "*");
}

#[test]
fn terminal_width_widget_fallback() {
    let out = TerminalWidthWidget.render(&SessionData::empty(), &plain_config(), &Some(100));
    assert_eq!(out.text, "100 cols");
    let raw = TerminalWidthWidget.render(&SessionData::empty(), &raw_config(), &Some(100));
    assert_eq!(raw.text, "100");
    let fallback = TerminalWidthWidget.render(&SessionData::empty(), &plain_config(), &None);
    assert_eq!(fallback.text, "80 cols");
}

#[test]
fn cwd_widget_forms() {
    let home = Some("/home/user".to_string());
    assert_eq!(abbreviate_home("/home/user/proj/sub", &home), "~/proj/sub");
    assert_eq!(abbreviate_home("/home/user", &home), "~");
    assert_eq!(abbreviate_home("/elsewhere", &home), "/elsewhere");
    assert_eq!(fish_style("/home/user/proj/sub", &home), "~/p/sub");
    assert_eq!(last_n_segments("/home/user/proj/sub", 2, &home), "proj/sub");
    let mut d = SessionData::empty();
    d.cwd = Some("/home/user/proj/sub".to_string());
    let base = CwdWidget.render(&d, &plain_config(), &home);
    assert_eq!(base.text, "sub");
    let full = CwdWidget.render(&d, &meta_config(&[("full", "true")]), &home);
    assert_eq!(full.text, "~/proj/sub");
    let fish = CwdWidget.render(&d, &meta_config(&[("fish_style", "true")]), &home);
    assert_eq!(fish.text, "~/p/sub");
    let segs = CwdWidget.render(&d, &meta_config(&[("segments", "2")]), &home);
    assert_eq!(segs.text, "proj/sub");
    assert!(!CwdWidget.render(&SessionData::empty(), &plain_config(), &home).visible);
}

#[test]
fn cwd_widget_prefers_workspace_dir() {
    let mut d = SessionData::empty();
    d.cwd = Some("/tmp/elsewhere".to_string());
    d.workspace = Some(WorkspaceInfo { current_dir: Some("/srv/app".to_string()) });
    let out = CwdWidget.render(&d, &plain_config(), &None);
    assert_eq!(out.text, "app");
}

#[test]
fn git_branch_widget_sources() {
    let mut d = SessionData::empty();
    d.cwd = Some("/repo".to_string());
    let cached = GitBranchWidget.render(
        &d,
        &plain_config(),
        &GitBranchSource::Cached(" main\n".to_string()),
    );
    assert_eq!(cached.text, "main");
    let fresh = GitBranchWidget.render(
        &d,
        &plain_config(),
        &GitBranchSource::Commands { branch: Some("feature\n".to_string()), head: None },
    );
    assert_eq!(fresh.text, "feature");
    let detached = GitBranchWidget.render(
        &d,
        &plain_config(),
        &GitBranchSource::Commands {
            branch: Some("\n".to_string()),
            head: Some("abc123\n".to_string()),
        },
    );
    assert_eq!(detached.text, "abc123");
    let nothing = GitBranchWidget.render(
        &d,
        &plain_config(),
        &GitBranchSource::Commands { branch: None, head: None },
    );
    assert!(!nothing.visible);
    let no_dir = GitBranchWidget.render(
        &SessionData::empty(),
        &plain_config(),
        &GitBranchSource::Cached("main".to_string()),
    );
    assert!(!no_dir.visible);
}

#[test]
fn git_status_widget_counts() {
    assert_eq!(format_status(2, 1, 1), "+2 ~1 ?1");
    assert_eq!(format_status(0, 0, 0), "");
    assert_eq!(format_status(0, 3, 0), "~3");
    let mut d = SessionData::empty();
    d.cwd = Some("/repo".to_string());
    let fresh = GitStatusWidget.render(
        &d,
        &plain_config(),
        &GitStatusSource::Porcelain("M  a\n M b\n?? c\nA  d\n".to_string()),
    );
    assert!(fresh.visible);
    assert_eq!(fresh.text, "+2 ~1 ?1");
    let cached = GitStatusWidget.render(
        &d,
        &plain_config(),
        &GitStatusSource::Cached("\n".to_string()),
    );
    assert!(cached.visible);
    assert_eq!(cached.text, "");
    let gone = GitStatusWidget.render(&d, &plain_config(), &GitStatusSource::Unavailable);
    assert!(!gone.visible);
}

#[test]
fn git_worktree_widget() {
    let mut d = SessionData::empty();
    d.cwd = Some("/home/u/wt".to_string());
    let wt = WorktreeResolution {
        toplevel: "/home/u/wt".to_string(),
        git_common_dir: "/repo/.git".to_string(),
        common_resolved: "/repo/.git".to_string(),
        toplevel_git_resolved: "/home/u/wt/.git".to_string(),
    };
    let out = GitWorktreeWidget.render(&d, &plain_config(), &Some(wt.clone()));
    assert_eq!(out.text, "WT: wt");
    let raw = GitWorktreeWidget.render(&d, &raw_config(), &Some(wt));
    assert_eq!(raw.text, "wt");
    let main_checkout = WorktreeResolution {
        toplevel: "/repo".to_string(),
        git_common_dir: ".git".to_string(),
        common_resolved: "/repo/.git".to_string(),
        toplevel_git_resolved: "/repo/.git".to_string(),
    };
    assert!(!GitWorktreeWidget.render(&d, &plain_config(), &Some(main_checkout)).visible);
    assert!(!GitWorktreeWidget.render(&d, &plain_config(), &None).visible);
}

#[test]
fn custom_command_widget_uses_resolved_value() {
    let cfg = meta_config(&[("command", "echo hi")]);
    let hit = CustomCommandWidget.render(
        &SessionData::empty(),
        &cfg,
        &Some("hi".to_string()),
    );
    assert!(hit.visible);
    assert_eq!(hit.text, "hi");
    let miss = CustomCommandWidget.render(&SessionData::empty(), &cfg, &None);
    assert!(!miss.visible);
    let unconfigured = CustomCommandWidget.render(
        &SessionData::empty(),
        &plain_config(),
        &Some("hi".to_string()),
    );
    assert!(!unconfigured.visible);
}

#[test]
fn cache_freshness_rule() {
    assert!(cache_fresh(0, COMMAND_CACHE_TTL_SECS));
    assert!(cache_fresh(10, COMMAND_CACHE_TTL_SECS));
    assert!(!cache_fresh(11, COMMAND_CACHE_TTL_SECS));
    assert!(cache_fresh(5, GIT_CACHE_TTL_SECS));
    assert!(!cache_fresh(6, GIT_CACHE_TTL_SECS));
}

#[test]
fn cache_paths_are_stable_keys() {
    assert_eq!(command_cache_path("ab"), "/tmp/claudeline-cmd-6162");
    assert_eq!(git_cache_path("git-branch", "/r"), "/tmp/claudeline-git-branch-2f72");
}

#[test]
fn registry_dispatches_by_name() {
    let registry = WidgetRegistry::new();
    let res = ResolvedInputs::none();
    let mut d = SessionData::empty();
    d.model = Some(ModelInfo { id: None, display_name: Some("Opus".to_string()) });
    let out = registry.render("model", &d, &plain_config(), &res).unwrap();
    assert_eq!(out.text, "Opus");
    assert!(registry.render("no-such-widget", &d, &plain_config(), &res).is_none());
}

#[test]
fn absent_inputs_render_nothing() {
    let registry = WidgetRegistry::new();
    let res = ResolvedInputs::none();
    let d = SessionData::empty();
    let cfg = plain_config();
    for name in [
        "agent-name",
        "api-duration",
        "block-timer",
        "context-percentage",
        "context-length",
        "session-cost",
        "custom-command",
        "custom-text",
        "cwd",
        "session-duration",
        "exceeds-tokens",
        "git-branch",
        "git-status",
        "git-worktree",
        "lines-changed",
        "model",
        "output-style",
        "session-id",
        "tokens-input",
        "tokens-output",
        "tokens-cached",
        "tokens-total",
        "version",
        "vim-mode",
    ] {
        let out = registry.render(name, &d, &cfg, &res).unwrap();
        assert!(!out.visible, "{name} should be invisible");
        assert_eq!(out.text, "", "{name} should carry no text");
        assert_eq!(out.display_width, 0, "{name} should have zero width");
    }
}
