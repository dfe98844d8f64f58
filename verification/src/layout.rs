//! The layout engine: resolves the usable width from the flex mode, renders
//! each configured line's widgets through the registry, keeps the visible
//! ones in configured order, and assembles each line greedily left to right
//! under the width budget, with separators, padding and styling, closed by
//! one reset sequence.

use vstd::prelude::*;
use vstd::string::StringExecFns;
use crate::config::{Config, LineWidgetConfig};
use crate::data::SessionData;
use crate::render::{bg_code, bold_code, fg_code, parse_color_of, reset_code, Renderer};
use crate::resolve::ResolvedInputs;
use crate::text::{display_width_of, measure_width, str_eq, views_of};
use crate::widgets::{registry_model, WidgetModel, WidgetOutput, WidgetRegistry};

verus! {

/// The usable column budget: the detected width for `full`, a fixed sixty
/// columns for `compact`, and the detected width less forty columns for
/// `full-minus-40` and for every unrecognized mode; a failed detection
/// counts as 120 columns before the mode adjustment.
pub open spec fn resolve_width_of(detected: Option<u16>, mode: Seq<char>) -> int {
    let w = match detected {
        Some(c) => c as int,
        None => 120,
    };
    if mode == "full"@ {
        w
    } else if mode == "compact"@ {
        60
    } else if w >= 40 {
        w - 40
    } else {
        0
    }
}

/// Apply the flex mode to a detection result.
pub fn resolve_width(detected: Option<u16>, flex_mode: &str) -> (r: usize)
    ensures
        r as int == resolve_width_of(detected, flex_mode@),
{
    let w: usize = match detected {
        Some(c) => c as usize,
        None => 120,
    };
    if str_eq(flex_mode, "full") {
        w
    } else if str_eq(flex_mode, "compact") {
        60
    } else if w >= 40 {
        w - 40
    } else {
        0
    }
}

/// Relies on `crossterm::terminal::size`: the terminal's (columns, rows)
/// where detection succeeds; the outcome depends on the environment.
#[verifier::external_body]
fn detect_terminal_cols() -> (r: Option<u16>) {
    match crossterm::terminal::size() {
        Ok((w, _h)) => Some(w),
        Err(_) => None,
    }
}

/// The padding around one widget: its entry's override, else the default.
pub open spec fn pad_of(wc: LineWidgetConfig, default_padding: Seq<char>) -> Seq<char> {
    match wc.padding {
        Some(p) => p@,
        None => default_padding,
    }
}

/// The styled form of one widget's text: background, foreground and bold
/// codes as configured, the text, and always a closing reset.
pub open spec fn styled_text_of(text: Seq<char>, wc: LineWidgetConfig, global_bold: bool) -> Seq<
    char,
> {
    let bg = match wc.background_color {
        Some(b) => bg_code(parse_color_of(b@)),
        None => Seq::<char>::empty(),
    };
    let fg = match wc.color {
        Some(c) => fg_code(parse_color_of(c@)),
        None => Seq::<char>::empty(),
    };
    let bold = if (match wc.bold {
        Some(b) => b,
        None => global_bold,
    }) {
        bold_code()
    } else {
        Seq::<char>::empty()
    };
    bg + fg + bold + text + reset_code()
}

/// Whether a separator is due before widget `i`: it is not the first and
/// the widget before it did not ask to merge with it.
pub open spec fn sep_due(vw: Seq<(WidgetModel, LineWidgetConfig)>, i: int) -> bool {
    i > 0 && !vw[i - 1].1.merge_next
}

/// The columns widget `i` adds to the line: its separator where due, its
/// own width, and its padding on both sides.
pub open spec fn piece_width(
    vw: Seq<(WidgetModel, LineWidgetConfig)>,
    i: int,
    sep_w: int,
    dpad: Seq<char>,
) -> int {
    (if sep_due(vw, i) {
        sep_w
    } else {
        0
    }) + vw[i].0.width + 2 * display_width_of(pad_of(vw[i].1, dpad))
}

/// How many widgets the greedy assembly takes, starting at widget `i` with
/// `w` columns already used: it stops at the first widget whose due
/// separator alone, or whose separator and padded width, would pass the
/// budget.
pub open spec fn fit_count_from(
    vw: Seq<(WidgetModel, LineWidgetConfig)>,
    max: int,
    sep_w: int,
    dpad: Seq<char>,
    i: int,
    w: int,
) -> int
    decreases vw.len() - i,
{
    if i < 0 || i >= vw.len() {
        i
    } else if sep_due(vw, i) && w + sep_w > max {
        i
    } else if w + piece_width(vw, i, sep_w, dpad) > max {
        i
    } else {
        fit_count_from(vw, max, sep_w, dpad, i + 1, w + piece_width(vw, i, sep_w, dpad))
    }
}

/// How many widgets the greedy assembly takes under the budget.
pub open spec fn fit_count(
    vw: Seq<(WidgetModel, LineWidgetConfig)>,
    max: int,
    sep_w: int,
    dpad: Seq<char>,
) -> int {
    fit_count_from(vw, max, sep_w, dpad, 0, 0)
}

/// The columns the first `k` widgets of the line use.
pub open spec fn width_upto(
    vw: Seq<(WidgetModel, LineWidgetConfig)>,
    k: int,
    sep_w: int,
    dpad: Seq<char>,
) -> int
    decreases k,
{
    if k <= 0 {
        0
    } else {
        width_upto(vw, k - 1, sep_w, dpad) + piece_width(vw, k - 1, sep_w, dpad)
    }
}

/// The text widget `i` contributes: its separator where due, then the
/// padded styled text.
pub open spec fn line_piece(
    vw: Seq<(WidgetModel, LineWidgetConfig)>,
    i: int,
    sep: Seq<char>,
    dpad: Seq<char>,
    global_bold: bool,
) -> Seq<char> {
    let pad = pad_of(vw[i].1, dpad);
    (if sep_due(vw, i) {
        sep
    } else {
        Seq::<char>::empty()
    }) + pad + styled_text_of(vw[i].0.text, vw[i].1, global_bold) + pad
}

/// The concatenated contributions of the first `k` widgets.
pub open spec fn body_upto(
    vw: Seq<(WidgetModel, LineWidgetConfig)>,
    k: int,
    sep: Seq<char>,
    dpad: Seq<char>,
    global_bold: bool,
) -> Seq<char>
    decreases k,
{
    if k <= 0 {
        Seq::<char>::empty()
    } else {
        body_upto(vw, k - 1, sep, dpad, global_bold) + line_piece(vw, k - 1, sep, dpad, global_bold)
    }
}

/// One assembled line: the widgets that fit, then exactly one reset.
pub open spec fn line_text_of(
    vw: Seq<(WidgetModel, LineWidgetConfig)>,
    max: int,
    sep: Seq<char>,
    dpad: Seq<char>,
    global_bold: bool,
) -> Seq<char> {
    body_upto(vw, fit_count(vw, max, display_width_of(sep) as int, dpad), sep, dpad, global_bold)
        + reset_code()
}

/// The models realized by a sequence of rendered widgets with their entries.
pub open spec fn models_of(s: Seq<(WidgetOutput, &LineWidgetConfig)>) -> Seq<
    (WidgetModel, LineWidgetConfig),
> {
    s.map_values(|p: (WidgetOutput, &LineWidgetConfig)| (p.0.model(), *p.1))
}

/// The visible widgets of one configured line, in configured order, each
/// paired with its placement entry.
pub open spec fn visible_of(
    entries: Seq<LineWidgetConfig>,
    data: SessionData,
    res: ResolvedInputs,
) -> Seq<(WidgetModel, LineWidgetConfig)>
    decreases entries.len(),
{
    if entries.len() == 0 {
        Seq::empty()
    } else {
        let rest = visible_of(entries.drop_last(), data, res);
        let e = entries.last();
        match registry_model(e.widget_type@, data, e.raw_value, e.metadata@, res) {
            Some(m) => if m.visible {
                rest + seq![(m, e)]
            } else {
                rest
            },
            None => rest,
        }
    }
}

/// Every output line of one render pass: one assembled line for each
/// configured line that is non-empty and keeps at least one visible widget.
pub open spec fn rendered_lines_of(
    lines: Seq<Vec<LineWidgetConfig>>,
    data: SessionData,
    res: ResolvedInputs,
    cfg: Config,
    max: int,
) -> Seq<Seq<char>>
    decreases lines.len(),
{
    if lines.len() == 0 {
        Seq::empty()
    } else {
        let rest = rendered_lines_of(lines.drop_last(), data, res, cfg, max);
        let entries = lines.last()@;
        if entries.len() == 0 {
            rest
        } else {
            let vw = visible_of(entries, data, res);
            if vw.len() == 0 {
                rest
            } else {
                rest + seq![
                    line_text_of(
                        vw,
                        max,
                        cfg.default_separator@,
                        cfg.default_padding@,
                        cfg.global_bold,
                    ),
                ]
            }
        }
    }
}

/// A configured line that is empty, or whose widgets all come back
/// invisible or unknown, produces no output line: the pass's output is
/// exactly what the remaining lines produce.
pub proof fn lemma_line_without_visible_widgets(
    lines: Seq<Vec<LineWidgetConfig>>,
    line: Vec<LineWidgetConfig>,
    data: SessionData,
    res: ResolvedInputs,
    cfg: Config,
    max: int,
)
    requires
        line@.len() == 0 || visible_of(line@, data, res).len() == 0,
    ensures
        rendered_lines_of(lines.push(line), data, res, cfg, max) == rendered_lines_of(
            lines,
            data,
            res,
            cfg,
            max,
        ),
{
    assert(lines.push(line).drop_last() =~= lines);
    assert(lines.push(line).last() == line);
}

proof fn lemma_fit_count_bounded(
    vw: Seq<(WidgetModel, LineWidgetConfig)>,
    max: int,
    sep_w: int,
    dpad: Seq<char>,
    i: int,
    w: int,
)
    requires
        0 <= i <= vw.len(),
        w == width_upto(vw, i, sep_w, dpad),
        w <= max,
    ensures
        i <= fit_count_from(vw, max, sep_w, dpad, i, w) <= vw.len(),
        width_upto(vw, fit_count_from(vw, max, sep_w, dpad, i, w), sep_w, dpad) <= max,
    decreases vw.len() - i,
{
    if i < vw.len() {
        let p = piece_width(vw, i, sep_w, dpad);
        if !(sep_due(vw, i) && w + sep_w > max) && !(w + p > max) {
            assert(width_upto(vw, i + 1, sep_w, dpad) == w + p);
            lemma_fit_count_bounded(vw, max, sep_w, dpad, i + 1, w + p);
        }
    }
}

/// The assembled widgets' total display width — separators, padding and
/// widget text, style codes excluded — never passes the resolved budget.
pub proof fn lemma_assembled_width_bounded(
    vw: Seq<(WidgetModel, LineWidgetConfig)>,
    max: int,
    sep_w: int,
    dpad: Seq<char>,
)
    requires
        max >= 0,
    ensures
        width_upto(vw, fit_count(vw, max, sep_w, dpad), sep_w, dpad) <= max,
{
    lemma_fit_count_bounded(vw, max, sep_w, dpad, 0, 0);
}

/// No separator is ever emitted between two widgets where the earlier one
/// asked to merge with the next: such a widget's contribution starts
/// directly with its padding.
pub proof fn lemma_merge_next_suppresses_separator(
    vw: Seq<(WidgetModel, LineWidgetConfig)>,
    i: int,
    sep: Seq<char>,
    dpad: Seq<char>,
    global_bold: bool,
)
    requires
        0 < i < vw.len(),
        vw[i - 1].1.merge_next,
    ensures
        line_piece(vw, i, sep, dpad, global_bold) == pad_of(vw[i].1, dpad) + styled_text_of(
            vw[i].0.text,
            vw[i].1,
            global_bold,
        ) + pad_of(vw[i].1, dpad),
{
    assert(line_piece(vw, i, sep, dpad, global_bold) =~= pad_of(vw[i].1, dpad) + styled_text_of(
        vw[i].0.text,
        vw[i].1,
        global_bold,
    ) + pad_of(vw[i].1, dpad));
}

/// Every assembled line is its widgets' text followed by exactly one reset
/// sequence: whatever styling was applied, the line's last characters are
/// one reset.
pub proof fn lemma_line_ends_with_reset(
    vw: Seq<(WidgetModel, LineWidgetConfig)>,
    max: int,
    sep: Seq<char>,
    dpad: Seq<char>,
    global_bold: bool,
)
    ensures
        line_text_of(vw, max, sep, dpad, global_bold) == body_upto(
            vw,
            fit_count(vw, max, display_width_of(sep) as int, dpad),
            sep,
            dpad,
            global_bold,
        ) + reset_code(),
        line_text_of(vw, max, sep, dpad, global_bold).len() >= reset_code().len(),
        line_text_of(vw, max, sep, dpad, global_bold).subrange(
            line_text_of(vw, max, sep, dpad, global_bold).len() - reset_code().len(),
            line_text_of(vw, max, sep, dpad, global_bold).len() as int,
        ) == reset_code(),
{
    let lt = line_text_of(vw, max, sep, dpad, global_bold);
    let body = body_upto(
        vw,
        fit_count(vw, max, display_width_of(sep) as int, dpad),
        sep,
        dpad,
        global_bold,
    );
    assert(lt.subrange(body.len() as int, lt.len() as int) =~= reset_code());
}

/// Assembles styled status lines from widget outputs.
pub struct LayoutEngine<'a> {
    config: &'a Config,
    renderer: &'a Renderer,
}

impl<'a> LayoutEngine<'a> {
    pub fn new(config: &'a Config, renderer: &'a Renderer) -> LayoutEngine<'a> {
        LayoutEngine { config, renderer }
    }

    /// The usable column budget for this pass: detection, then flex mode.
    /// In compact mode the budget is sixty columns whatever was detected.
    pub fn terminal_width(config: &Config) -> (r: usize)
        ensures
            exists|d: Option<u16>| r as int == resolve_width_of(d, config.flex_mode@),
            config.flex_mode@ == "compact"@ ==> r == 60,
    {
        let d = detect_terminal_cols();
        let r = resolve_width(d, config.flex_mode.as_str());
        proof {
            reveal_strlit("full");
            reveal_strlit("compact");
            assert("full"@.len() == 4);
            assert("compact"@.len() == 7);
            assert("full"@ != "compact"@);
            assert(r as int == resolve_width_of(d, config.flex_mode@));
        }
        r
    }

    /// Wrap one widget's text in its styling: background, foreground and
    /// bold codes as configured, closed by a reset so no style bleeds into
    /// the next segment.
    pub fn apply_style(&self, text: &str, wc: &LineWidgetConfig, config: &Config) -> (r: String)
        ensures
            r@ == styled_text_of(text@, *wc, config.global_bold),
    {
        let mut styled = String::new();
        if let Some(bg) = &wc.background_color {
            styled.append(self.renderer.bg(&Renderer::parse_color(bg.as_str())));
        }
        if let Some(fg) = &wc.color {
            styled.append(self.renderer.fg(&Renderer::parse_color(fg.as_str())));
        }
        let bold = match wc.bold {
            Some(b) => b,
            None => config.global_bold,
        };
        if bold {
            styled.append(self.renderer.bold());
        }
        styled.append(text);
        styled.append(self.renderer.reset());
        proof {
            assert(styled@ =~= styled_text_of(text@, *wc, config.global_bold));
        }
        styled
    }

    /// Assemble one line from its visible widgets, greedily left to right:
    /// a widget that would pass the budget, or whose due separator would,
    /// stops the assembly; what was taken is joined with separators and
    /// padding, and the line always ends with exactly one reset. The taken
    /// widgets' total display width never passes the budget.
    pub fn assemble_line(
        &self,
        widgets: &Vec<(WidgetOutput, &LineWidgetConfig)>,
        max_width: usize,
        config: &Config,
    ) -> (r: String)
        ensures
            r@ == line_text_of(
                models_of(widgets@),
                max_width as int,
                config.default_separator@,
                config.default_padding@,
                config.global_bold,
            ),
            width_upto(
                models_of(widgets@),
                fit_count(
                    models_of(widgets@),
                    max_width as int,
                    display_width_of(config.default_separator@) as int,
                    config.default_padding@,
                ),
                display_width_of(config.default_separator@) as int,
                config.default_padding@,
            ) <= max_width,
    {
        let ghost vw = models_of(widgets@);
        let ghost sw = display_width_of(config.default_separator@) as int;
        let ghost dpad = config.default_padding@;
        let ghost gb = config.global_bold;
        let sep_w = measure_width(config.default_separator.as_str());
        let mut result = String::new();
        let mut total: usize = 0;
        let mut i: usize = 0;
        loop
            invariant_except_break
                vw == models_of(widgets@),
                sw == display_width_of(config.default_separator@) as int,
                dpad == config.default_padding@,
                gb == config.global_bold,
                widgets@.len() == vw.len(),
                sep_w as int == sw,
                i <= vw.len(),
                total <= max_width,
                total as int == width_upto(vw, i as int, sw, dpad),
                result@ == body_upto(vw, i as int, config.default_separator@, dpad, gb),
                fit_count_from(vw, max_width as int, sw, dpad, i as int, total as int) == fit_count(
                    vw,
                    max_width as int,
                    sw,
                    dpad,
                ),
            ensures
                result@ == body_upto(
                    vw,
                    fit_count(vw, max_width as int, sw, dpad),
                    config.default_separator@,
                    dpad,
                    gb,
                ),
                width_upto(vw, fit_count(vw, max_width as int, sw, dpad), sw, dpad)
                    <= max_width as int,
            decreases vw.len() - i,
        {
            if i >= widgets.len() {
                proof {
                    assert(fit_count_from(vw, max_width as int, sw, dpad, i as int, total as int)
                        == i);
                }
                break ;
            }
            let entry = &widgets[i];
            let need_separator = i > 0 && !widgets[i - 1].1.merge_next;
            proof {
                assert(vw[i as int] == (entry.0.model(), *entry.1));
                if i > 0 {
                    assert(vw[i - 1] == (widgets@[i - 1].0.model(), *widgets@[i - 1].1));
                }
                assert(need_separator == sep_due(vw, i as int));
            }
            if need_separator && sep_w > max_width - total {
                proof {
                    assert(fit_count_from(vw, max_width as int, sw, dpad, i as int, total as int)
                        == i);
                }
                break ;
            }
            let padding: &String = match &entry.1.padding {
                Some(p) => p,
                None => &config.default_padding,
            };
            let pad_w = measure_width(padding.as_str());
            proof {
                assert(padding@ == pad_of(vw[i as int].1, dpad));
                assert(pad_w as int == display_width_of(pad_of(vw[i as int].1, dpad)) as int);
            }
            let sep_part: u128 = if need_separator {
                sep_w as u128
            } else {
                0
            };
            let piece_w: u128 = sep_part + entry.0.display_width as u128 + 2 * (pad_w as u128);
            proof {
                assert(piece_w as int == piece_width(vw, i as int, sw, dpad));
            }
            if piece_w > (max_width - total) as u128 {
                proof {
                    assert(total as int + piece_width(vw, i as int, sw, dpad)
                        > max_width as int);
                    assert(fit_count_from(vw, max_width as int, sw, dpad, i as int, total as int)
                        == i);
                }
                break ;
            }
            if need_separator {
                result.append(config.default_separator.as_str());
            }
            result.append(padding.as_str());
            let styled = self.apply_style(entry.0.text.as_str(), entry.1, config);
            result.append(styled.as_str());
            result.append(padding.as_str());
            proof {
                assert(result@ =~= body_upto(vw, i as int, config.default_separator@, dpad, gb)
                    + line_piece(vw, i as int, config.default_separator@, dpad, gb));
                assert(body_upto(vw, i + 1 as int, config.default_separator@, dpad, gb) == body_upto(
                    vw,
                    i as int,
                    config.default_separator@,
                    dpad,
                    gb,
                ) + line_piece(vw, i as int, config.default_separator@, dpad, gb));
            }
            total = total + (piece_w as usize);
            proof {
                assert(total as int == width_upto(vw, i + 1 as int, sw, dpad));
                assert(fit_count_from(vw, max_width as int, sw, dpad, i as int, width_upto(
                    vw,
                    i as int,
                    sw,
                    dpad,
                )) == fit_count_from(vw, max_width as int, sw, dpad, i + 1 as int, total as int));
            }
            i = i + 1;
        }
        result.append(self.renderer.reset());
        proof {
            assert(result@ =~= line_text_of(
                vw,
                max_width as int,
                config.default_separator@,
                dpad,
                gb,
            ));
        }
        result
    }

    /// Produce the output lines of one render pass: each non-empty
    /// configured line whose widgets leave something visible becomes one
    /// assembled line, in configuration order, under the budget the flex
    /// mode resolves; in compact mode that budget is sixty columns.
    pub fn render(
        &self,
        data: &SessionData,
        config: &Config,
        registry: &WidgetRegistry,
        res: &ResolvedInputs,
    ) -> (r: Vec<String>)
        ensures
            exists|d: Option<u16>|
                views_of(r@) == rendered_lines_of(
                    config.lines@,
                    *data,
                    *res,
                    *config,
                    resolve_width_of(d, config.flex_mode@),
                ),
            config.flex_mode@ == "compact"@ ==> views_of(r@) == rendered_lines_of(
                config.lines@,
                *data,
                *res,
                *config,
                60,
            ),
    {
        let term_width = Self::terminal_width(config);
        let mut output_lines: Vec<String> = Vec::new();
        let mut li: usize = 0;
        proof {
            assert(views_of(output_lines@) =~= rendered_lines_of(
                config.lines@.take(0),
                *data,
                *res,
                *config,
                term_width as int,
            ));
        }
        while li < config.lines.len()
            invariant
                li <= config.lines@.len(),
                views_of(output_lines@) == rendered_lines_of(
                    config.lines@.take(li as int),
                    *data,
                    *res,
                    *config,
                    term_width as int,
                ),
            decreases config.lines@.len() - li,
        {
            let line_config = &config.lines[li];
            proof {
                assert(config.lines@.take(li + 1).drop_last() =~= config.lines@.take(li as int));
                assert(config.lines@.take(li + 1).last() == config.lines@[li as int]);
            }
            if line_config.len() > 0 {
                let mut widgets: Vec<(WidgetOutput, &LineWidgetConfig)> = Vec::new();
                let mut wi: usize = 0;
                proof {
                    assert(models_of(widgets@) =~= visible_of(
                        line_config@.take(0),
                        *data,
                        *res,
                    ));
                }
                while wi < line_config.len()
                    invariant
                        wi <= line_config@.len(),
                        models_of(widgets@) == visible_of(line_config@.take(wi as int), *data, *res),
                    decreases line_config@.len() - wi,
                {
                    let wc = &line_config[wi];
                    let widget_config = Config::to_widget_config(wc);
                    proof {
                        assert(line_config@.take(wi + 1).drop_last() =~= line_config@.take(
                            wi as int,
                        ));
                        assert(line_config@.take(wi + 1).last() == line_config@[wi as int]);
                    }
                    let ghost prev = widgets@;
                    match registry.render(wc.widget_type.as_str(), data, &widget_config, res) {
                        Some(output) => {
                            if output.visible {
                                let ghost om = output.model();
                                widgets.push((output, wc));
                                proof {
                                    assert forall|j: int|
                                        0 <= j < widgets@.len() implies models_of(widgets@)[j]
                                        == visible_of(line_config@.take(wi + 1), *data, *res)[j] by {
                                        assert(models_of(prev) == visible_of(
                                            line_config@.take(wi as int),
                                            *data,
                                            *res,
                                        ));
                                        assert(models_of(prev).len() == prev.len());
                                        if j < prev.len() {
                                            assert(widgets@[j] == prev[j]);
                                        } else {
                                            assert(widgets@[j] == (widgets@[j].0, widgets@[j].1));
                                        }
                                    }
                                    assert(models_of(widgets@) =~= visible_of(
                                        line_config@.take(wi + 1),
                                        *data,
                                        *res,
                                    ));
                                }
                            } else {
                                proof {
                                    assert(visible_of(line_config@.take(wi + 1), *data, *res)
                                        =~= visible_of(line_config@.take(wi as int), *data, *res));
                                }
                            }
                        },
                        None => {
                            proof {
                                assert(visible_of(line_config@.take(wi + 1), *data, *res)
                                    =~= visible_of(line_config@.take(wi as int), *data, *res));
                            }
                        },
                    }
                    wi = wi + 1;
                }
                proof {
                    assert(line_config@.take(line_config@.len() as int) =~= line_config@);
                }
                if widgets.len() > 0 {
                    let line = self.assemble_line(&widgets, term_width, config);
                    let ghost prev_lines = output_lines@;
                    output_lines.push(line);
                    proof {
                        assert forall|j: int|
                            0 <= j < output_lines@.len() implies views_of(output_lines@)[j]
                            == rendered_lines_of(
                            config.lines@.take(li + 1),
                            *data,
                            *res,
                            *config,
                            term_width as int,
                        )[j] by {
                            assert(views_of(prev_lines).len() == prev_lines.len());
                            if j < prev_lines.len() {
                                assert(output_lines@[j] == prev_lines[j]);
                            }
                        }
                        assert(views_of(output_lines@) =~= rendered_lines_of(
                            config.lines@.take(li + 1),
                            *data,
                            *res,
                            *config,
                            term_width as int,
                        ));
                    }
                } else {
                    proof {
                        assert(rendered_lines_of(
                            config.lines@.take(li + 1),
                            *data,
                            *res,
                            *config,
                            term_width as int,
                        ) =~= rendered_lines_of(
                            config.lines@.take(li as int),
                            *data,
                            *res,
                            *config,
                            term_width as int,
                        ));
                    }
                }
            } else {
                proof {
                    assert(rendered_lines_of(
                        config.lines@.take(li + 1),
                        *data,
                        *res,
                        *config,
                        term_width as int,
                    ) =~= rendered_lines_of(
                        config.lines@.take(li as int),
                        *data,
                        *res,
                        *config,
                        term_width as int,
                    ));
                }
            }
            li = li + 1;
        }
        proof {
            assert(config.lines@.take(config.lines@.len() as int) =~= config.lines@);
        }
        output_lines
    }
}

} // verus!
