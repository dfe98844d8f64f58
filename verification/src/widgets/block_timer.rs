//! Shows how much of the current five-hour usage block remains, as text or
//! as a gauge bar.

use vstd::prelude::*;
use vstd::string::StringExecFns;
use crate::config::{meta_flag, meta_flag_of, meta_get, meta_lookup, WidgetConfig};
use crate::data::SessionData;
use crate::text::{
    append_repeated, dec_of, parse_u64, parse_u64_of, repeat_char, u64_to_string,
};
use crate::widgets::{hidden, hidden_model, shown, shown_model, WidgetModel, WidgetOutput};

verus! {

/// Length of one usage block: five hours in milliseconds.
pub const BLOCK_DURATION_MS: u64 = 18_000_000;

/// A duration in milliseconds as whole hours and minutes, hours omitted
/// when zero.
pub open spec fn format_hm_of(ms: int) -> Seq<char> {
    let total_mins = ms / 60_000;
    let hours = total_mins / 60;
    let mins = total_mins % 60;
    if hours > 0 {
        dec_of(hours) + seq!['h'] + dec_of(mins) + seq!['m']
    } else {
        dec_of(mins) + seq!['m']
    }
}

/// Render a duration in milliseconds as hours and minutes.
pub fn format_hm(ms: u64) -> (r: String)
    ensures
        r@ == format_hm_of(ms as int),
{
    proof {
        reveal_strlit("h");
        reveal_strlit("m");
        assert("h"@ =~= seq!['h']);
        assert("m"@ =~= seq!['m']);
    }
    let total_mins = ms / 60_000;
    let hours = total_mins / 60;
    let mins = total_mins % 60;
    let mut t: String;
    if hours > 0 {
        t = u64_to_string(hours);
        t.append("h");
        let m = u64_to_string(mins);
        t.append(m.as_str());
        t.append("m");
    } else {
        t = u64_to_string(mins);
        t.append("m");
    }
    proof {
        assert(t@ =~= format_hm_of(ms as int));
    }
    t
}

/// The configured gauge width: the `bar_width` metadata entry where it
/// parses, sixteen cells otherwise.
pub open spec fn bar_width_of(meta: Seq<(String, String)>) -> int {
    match meta_lookup(meta, "bar_width"@) {
        Some(s) => match parse_u64_of(s) {
            Some(v) => v as int,
            None => 16,
        },
        None => 16,
    }
}

/// The filled cell count of the block gauge: the elapsed share scaled to the
/// gauge width, rounded with ties upward, never past the width.
pub open spec fn block_filled_of(elapsed_ms: int, width: int) -> int {
    let f = (elapsed_ms * width + 9_000_000) / 18_000_000;
    if f > width {
        width
    } else {
        f
    }
}

pub struct BlockTimerWidget;

pub open spec fn block_timer_model(data: SessionData, meta: Seq<(String, String)>) -> WidgetModel {
    match data.cost {
        None => hidden_model(55),
        Some(cost) => match cost.total_duration_ms {
            None => hidden_model(55),
            Some(d) => {
                let elapsed = d as int % 18_000_000;
                let remaining = 18_000_000 - elapsed;
                let text = if meta_flag_of(meta, "bar"@) {
                    let width = bar_width_of(meta);
                    let filled = block_filled_of(elapsed, width);
                    repeat_char('\u{2593}', filled) + repeat_char('\u{2591}', width - filled)
                        + seq![' '] + format_hm_of(remaining)
                } else {
                    "Block: "@ + format_hm_of(remaining) + " left"@
                };
                shown_model(text, 55)
            },
        },
    }
}

impl BlockTimerWidget {
    pub fn name(&self) -> (r: &'static str)
        ensures
            r@ == "block-timer"@,
    {
        "block-timer"
    }

    /// Shows the remaining time of the current block; the `bar` metadata
    /// flag renders a gauge of the elapsed share instead of the label.
    /// Nothing is shown while the cost record or the duration is absent.
    pub fn render(&self, data: &SessionData, config: &WidgetConfig) -> (out: WidgetOutput)
        ensures
            out.model() == block_timer_model(*data, config.metadata@),
    {
        proof {
            reveal_strlit("\u{2593}");
            reveal_strlit("\u{2591}");
            reveal_strlit(" ");
            assert("\u{2593}"@ =~= seq!['\u{2593}']);
            assert("\u{2591}"@ =~= seq!['\u{2591}']);
            assert(" "@ =~= seq![' ']);
        }
        let cost = match &data.cost {
            Some(c) => c,
            None => { return hidden(55) },
        };
        let d = match cost.total_duration_ms {
            Some(d) => d,
            None => { return hidden(55) },
        };
        let elapsed = d % BLOCK_DURATION_MS;
        let remaining = BLOCK_DURATION_MS - elapsed;
        let remaining_str = format_hm(remaining);
        let text = if meta_flag(&config.metadata, "bar") {
            let width: u64 = match meta_get(&config.metadata, "bar_width") {
                Some(s) => match parse_u64(s.as_str()) {
                    Some(v) => v,
                    None => 16,
                },
                None => 16,
            };
            proof {
                vstd::arithmetic::mul::lemma_mul_upper_bound(
                    elapsed as int,
                    18_000_000,
                    width as int,
                    u64::MAX as int,
                );
            }
            let f0: u128 = (elapsed as u128 * width as u128 + 9_000_000) / 18_000_000;
            let filled: u64 = if f0 > width as u128 {
                width
            } else {
                f0 as u64
            };
            proof {
                assert(filled as int == block_filled_of(elapsed as int, width as int));
            }
            let mut t = String::new();
            append_repeated(&mut t, "\u{2593}", filled);
            append_repeated(&mut t, "\u{2591}", width - filled);
            t.append(" ");
            t.append(remaining_str.as_str());
            proof {
                let widthi = bar_width_of(config.metadata@);
                let filledi = block_filled_of(elapsed as int, widthi);
                assert(t@ =~= repeat_char('\u{2593}', filledi) + repeat_char(
                    '\u{2591}',
                    widthi - filledi,
                ) + seq![' '] + format_hm_of(remaining as int));
            }
            t
        } else {
            let mut t = "Block: ".to_owned();
            t.append(remaining_str.as_str());
            t.append(" left");
            proof {
                assert(t@ =~= "Block: "@ + format_hm_of(remaining as int) + " left"@);
            }
            t
        };
        shown(text, 55)
    }
}

} // verus!
