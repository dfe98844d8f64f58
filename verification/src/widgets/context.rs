//! Context-window widgets: the used (or free) share as a percentage with an
//! optional gauge bar, and the context length as a token count.

use vstd::prelude::*;
use vstd::string::StringExecFns;
use crate::config::{meta_flag, meta_flag_of, WidgetConfig};
use crate::data::SessionData;
use crate::text::{append_repeated, dec_of, repeat_char, u128_to_string, u64_to_string};
use crate::widgets::tokens::{format_tokens, tokens_compact_of};
use crate::widgets::{hidden, hidden_model, or_zero, shown, shown_model, WidgetModel, WidgetOutput};

verus! {

/// The shown share in hundredths of a percent: the used share, or with the
/// `inverse` flag the free share, floored at zero.
pub open spec fn display_share_of(hundredths: int, inverse: bool) -> int {
    if inverse {
        if hundredths <= 10000 {
            10000 - hundredths
        } else {
            0
        }
    } else {
        hundredths
    }
}

/// A ten-cell gauge: the share rounded to whole cells, ties upward, at most
/// ten filled.
pub open spec fn gauge_filled_of(share_hundredths: int) -> int {
    let f = share_hundredths / 1000 + (if share_hundredths % 1000 >= 500 {
        1int
    } else {
        0int
    });
    if f > 10 {
        10
    } else {
        f
    }
}

pub struct ContextPercentageWidget;

pub open spec fn context_percentage_model(
    data: SessionData,
    meta: Seq<(String, String)>,
) -> WidgetModel {
    match data.context_window {
        None => hidden_model(85),
        Some(cw) => match cw.used_percent_hundredths {
            None => hidden_model(85),
            Some(h) => {
                let share = display_share_of(h as int, meta_flag_of(meta, "inverse"@));
                let pct_text = dec_of(share / 100) + seq!['%'];
                let text = if meta_flag_of(meta, "bar"@) {
                    let filled = gauge_filled_of(share);
                    repeat_char('\u{2593}', filled) + repeat_char('\u{2591}', 10 - filled)
                        + seq![' '] + pct_text
                } else {
                    pct_text
                };
                shown_model(text, 85)
            },
        },
    }
}

impl ContextPercentageWidget {
    pub fn name(&self) -> (r: &'static str)
        ensures
            r@ == "context-percentage"@,
    {
        "context-percentage"
    }

    /// Shows the used share floored to whole percent; `inverse` shows the
    /// free share instead, and `bar` prefixes a ten-cell gauge. Nothing is
    /// shown while the context-window record or the share is absent.
    pub fn render(&self, data: &SessionData, config: &WidgetConfig) -> (out: WidgetOutput)
        ensures
            out.model() == context_percentage_model(*data, config.metadata@),
    {
        proof {
            reveal_strlit("%");
            reveal_strlit("\u{2593}");
            reveal_strlit("\u{2591}");
            reveal_strlit(" ");
            assert("%"@ =~= seq!['%']);
            assert("\u{2593}"@ =~= seq!['\u{2593}']);
            assert("\u{2591}"@ =~= seq!['\u{2591}']);
            assert(" "@ =~= seq![' ']);
        }
        let cw = match &data.context_window {
            Some(cw) => cw,
            None => { return hidden(85) },
        };
        let h = match cw.used_percent_hundredths {
            Some(p) => p,
            None => { return hidden(85) },
        };
        let share: u64 = if meta_flag(&config.metadata, "inverse") {
            if h <= 10000 {
                10000 - h
            } else {
                0
            }
        } else {
            h
        };
        let mut pct_text = u64_to_string(share / 100);
        pct_text.append("%");
        let text = if meta_flag(&config.metadata, "bar") {
            let f0 = share / 1000 + (if share % 1000 >= 500 {
                1
            } else {
                0
            });
            let filled = if f0 > 10 {
                10
            } else {
                f0
            };
            let mut t = String::new();
            append_repeated(&mut t, "\u{2593}", filled);
            append_repeated(&mut t, "\u{2591}", 10 - filled);
            t.append(" ");
            t.append(pct_text.as_str());
            proof {
                let sharei = display_share_of(h as int, meta_flag_of(config.metadata@, "inverse"@));
                assert(t@ =~= repeat_char('\u{2593}', gauge_filled_of(sharei)) + repeat_char(
                    '\u{2591}',
                    10 - gauge_filled_of(sharei),
                ) + seq![' '] + (dec_of(sharei / 100) + seq!['%']));
            }
            t
        } else {
            pct_text
        };
        shown(text, 85)
    }
}

pub struct ContextLengthWidget;

pub open spec fn context_length_model(data: SessionData, raw: bool) -> WidgetModel {
    match data.context_window {
        None => hidden_model(60),
        Some(cw) => match cw.current_usage {
            None => hidden_model(60),
            Some(u) => {
                let total = or_zero(u.input_tokens) + or_zero(u.cache_creation_input_tokens)
                    + or_zero(u.cache_read_input_tokens);
                let text = if raw {
                    dec_of(total)
                } else {
                    tokens_compact_of(total)
                };
                shown_model(text, 60)
            },
        },
    }
}

impl ContextLengthWidget {
    /// Render a count in the compact `K`/`M` form.
    pub fn format_compact(n: u64) -> (r: String)
        ensures
            r@ == tokens_compact_of(n as int),
    {
        format_tokens(n as u128, true)
    }

    pub fn name(&self) -> (r: &'static str)
        ensures
            r@ == "context-length"@,
    {
        "context-length"
    }

    /// Shows the input-side token total: input plus cache creation plus
    /// cache reads. The terse form is plain digits; the labeled form is
    /// compact. Nothing is shown while the usage record is absent.
    pub fn render(&self, data: &SessionData, config: &WidgetConfig) -> (out: WidgetOutput)
        ensures
            out.model() == context_length_model(*data, config.raw_value),
    {
        let cw = match &data.context_window {
            Some(cw) => cw,
            None => { return hidden(60) },
        };
        let u = match &cw.current_usage {
            Some(u) => u,
            None => { return hidden(60) },
        };
        let total: u128 = u.input_tokens.unwrap_or(0) as u128 + u.cache_creation_input_tokens
            .unwrap_or(0) as u128 + u.cache_read_input_tokens.unwrap_or(0) as u128;
        let text = if config.raw_value {
            u128_to_string(total)
        } else {
            format_tokens(total, true)
        };
        shown(text, 60)
    }
}

} // verus!
