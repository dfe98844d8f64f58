//! Layout engine behavior: width resolution, visibility filtering, greedy
//! assembly with separators, merge-next, padding, overflow and the closing
//! reset sequence.

use statusline::config::{Config, LineWidgetConfig, WidgetConfig};
use statusline::data::{ModelInfo, SessionData};
use statusline::layout::{resolve_width, LayoutEngine};
use statusline::render::{Color, Renderer};
use statusline::resolve::ResolvedInputs;
use statusline::widgets::{WidgetOutput, WidgetRegistry};

const RESET: &str = "\u{1b}[0m";

fn entry(widget_type: &str) -> LineWidgetConfig {
    LineWidgetConfig {
        widget_type: widget_type.to_string(),
        padding: None,
        color: None,
        background_color: None,
        bold: None,
        merge_next: false,
        raw_value: false,
        metadata: Vec::new(),
    }
}

fn text_entry(text: &str) -> LineWidgetConfig {
    let mut e = entry("custom-text");
    e.metadata = vec![("text".to_string(), text.to_string())];
    e
}

fn config_with_lines(lines: Vec<Vec<LineWidgetConfig>>) -> Config {
    Config {
        lines,
        default_separator: "|".to_string(),
        default_padding: String::new(),
        global_bold: false,
        flex_mode: "full".to_string(),
    }
}

fn output(text: &str, width: usize) -> WidgetOutput {
    WidgetOutput { text: text.to_string(), display_width: width, priority: 50, visible: true }
}

#[test]
fn resolve_width_modes() {
    assert_eq!(resolve_width(Some(200), "full"), 200);
    assert_eq!(resolve_width(Some(200), "full-minus-40"), 160);
    assert_eq!(resolve_width(Some(200), "compact"), 60);
    assert_eq!(resolve_width(Some(7), "compact"), 60);
    assert_eq!(resolve_width(None, "compact"), 60);
    assert_eq!(resolve_width(None, "full"), 120);
    assert_eq!(resolve_width(None, "anything-else"), 80);
    assert_eq!(resolve_width(Some(30), "full-minus-40"), 0);
}

#[test]
fn compact_budget_ignores_detection() {
    let config = Config {
        lines: Vec::new(),
        default_separator: "|".to_string(),
        default_padding: String::new(),
        global_bold: false,
        flex_mode: "compact".to_string(),
    };
    assert_eq!(LayoutEngine::terminal_width(&config), 60);
}

#[test]
fn assemble_joins_with_separator() {
    let config = config_with_lines(Vec::new());
    let renderer = Renderer::new();
    let engine = LayoutEngine::new(&config, &renderer);
    let e1 = entry("custom-text");
    let e2 = entry("custom-text");
    let widgets = vec![(output("A", 1), &e1), (output("B", 1), &e2)];
    let line = engine.assemble_line(&widgets, 80, &config);
    assert_eq!(line, format!("A{RESET}|B{RESET}{RESET}"));
}

#[test]
fn assemble_merge_next_suppresses_separator() {
    let config = config_with_lines(Vec::new());
    let renderer = Renderer::new();
    let engine = LayoutEngine::new(&config, &renderer);
    let mut e1 = entry("custom-text");
    e1.merge_next = true;
    let e2 = entry("custom-text");
    let widgets = vec![(output("A", 1), &e1), (output("B", 1), &e2)];
    let line = engine.assemble_line(&widgets, 80, &config);
    assert_eq!(line, format!("A{RESET}B{RESET}{RESET}"));
}

#[test]
fn assemble_stops_at_overflow_whole_widget() {
    let config = config_with_lines(Vec::new());
    let renderer = Renderer::new();
    let engine = LayoutEngine::new(&config, &renderer);
    let e1 = entry("custom-text");
    let e2 = entry("custom-text");
    let widgets = vec![(output("AAAAAA", 6), &e1), (output("BBBBBB", 6), &e2)];
    // Both plus a separator need 13 columns; at 10 only the first fits.
    let line = engine.assemble_line(&widgets, 10, &config);
    assert_eq!(line, format!("AAAAAA{RESET}{RESET}"));
    // At 0 nothing fits: the line is a bare reset.
    let bare = engine.assemble_line(&widgets, 0, &config);
    assert_eq!(bare, RESET);
}

#[test]
fn assemble_counts_padding_in_budget() {
    let mut config = config_with_lines(Vec::new());
    config.default_padding = " ".to_string();
    let renderer = Renderer::new();
    let engine = LayoutEngine::new(&config, &renderer);
    let e1 = entry("custom-text");
    let e2 = entry("custom-text");
    let widgets = vec![(output("AAA", 3), &e1), (output("BBB", 3), &e2)];
    // Each widget needs 3 + 2 columns padded; both plus a separator need 11.
    let line = engine.assemble_line(&widgets, 11, &config);
    assert_eq!(line, format!(" AAA{RESET} | BBB{RESET} {RESET}"));
    let clipped = engine.assemble_line(&widgets, 10, &config);
    assert_eq!(clipped, format!(" AAA{RESET} {RESET}"));
}

#[test]
fn assemble_applies_styles_and_resets() {
    let config = config_with_lines(Vec::new());
    let renderer = Renderer::new();
    let engine = LayoutEngine::new(&config, &renderer);
    let mut e1 = entry("custom-text");
    e1.color = Some("red".to_string());
    e1.background_color = Some("blue".to_string());
    e1.bold = Some(true);
    let widgets = vec![(output("X", 1), &e1)];
    let line = engine.assemble_line(&widgets, 80, &config);
    assert_eq!(
        line,
        format!("\u{1b}[44m\u{1b}[31m\u{1b}[1mX{RESET}{RESET}")
    );
    assert!(line.ends_with(RESET));
}

#[test]
fn parse_color_names() {
    assert_eq!(Renderer::parse_color("red"), Color::Red);
    assert_eq!(Renderer::parse_color("magenta"), Color::Magenta);
    assert_eq!(Renderer::parse_color("no-such-color"), Color::Default);
}

#[test]
fn render_skips_empty_and_invisible_lines() {
    let mut data = SessionData::empty();
    data.model = Some(ModelInfo { id: None, display_name: Some("Opus".to_string()) });
    // Three configured lines: an empty one, one whose only widget has no
    // data, and one that shows the model name.
    let config = config_with_lines(vec![
        Vec::new(),
        vec![entry("session-cost")],
        vec![entry("model")],
    ]);
    let renderer = Renderer::new();
    let engine = LayoutEngine::new(&config, &renderer);
    let registry = WidgetRegistry::new();
    let lines = engine.render(&data, &config, &registry, &ResolvedInputs::none());
    assert_eq!(lines.len(), 1);
    assert_eq!(lines[0], format!("Opus{RESET}{RESET}"));
}

#[test]
fn render_orders_by_configuration_not_priority() {
    // The separator widget carries the highest declared priority and the
    // custom text the lowest; configuration order still wins.
    let mut data = SessionData::empty();
    data.model = Some(ModelInfo { id: None, display_name: Some("M".to_string()) });
    let config = config_with_lines(vec![vec![text_entry("t"), entry("model")]]);
    let renderer = Renderer::new();
    let engine = LayoutEngine::new(&config, &renderer);
    let registry = WidgetRegistry::new();
    let lines = engine.render(&data, &config, &registry, &ResolvedInputs::none());
    assert_eq!(lines.len(), 1);
    assert_eq!(lines[0], format!("t{RESET}|M{RESET}{RESET}"));
}

#[test]
fn render_drops_unknown_widget_types() {
    let mut data = SessionData::empty();
    data.model = Some(ModelInfo { id: None, display_name: Some("M".to_string()) });
    let config = config_with_lines(vec![vec![entry("no-such-widget"), entry("model")]]);
    let renderer = Renderer::new();
    let engine = LayoutEngine::new(&config, &renderer);
    let registry = WidgetRegistry::new();
    let lines = engine.render(&data, &config, &registry, &ResolvedInputs::none());
    assert_eq!(lines.len(), 1);
    assert_eq!(lines[0], format!("M{RESET}{RESET}"));
}

#[test]
fn widget_config_extraction() {
    let mut e = entry("custom-text");
    e.raw_value = true;
    e.metadata = vec![("text".to_string(), "x".to_string())];
    let wc: WidgetConfig = Config::to_widget_config(&e);
    assert!(wc.raw_value);
    assert_eq!(wc.metadata.len(), 1);
    assert_eq!(wc.metadata[0].0, "text");
}
