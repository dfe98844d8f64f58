//! Shows the session's cost in USD, optionally with an hourly burn rate.

use vstd::prelude::*;
use vstd::string::StringExecFns;
use crate::config::{meta_flag, meta_flag_of, WidgetConfig};
use crate::data::SessionData;
use crate::text::{dec_of, pad2_of, pad2_string, u128_to_string, u64_to_string};
use crate::widgets::{hidden, hidden_model, shown, shown_model, WidgetModel, WidgetOutput};

verus! {

/// An amount in cents rendered as fixed two-decimal USD with a dollar sign.
pub open spec fn usd_of(cents: int) -> Seq<char> {
    seq!['$'] + dec_of(cents / 100) + seq!['.'] + pad2_of(cents % 100)
}

/// Render an amount of cents as fixed two-decimal USD.
pub fn format_usd(cents: u64) -> (r: String)
    ensures
        r@ == usd_of(cents as int),
{
    proof {
        reveal_strlit("$");
        reveal_strlit(".");
        assert("$"@ =~= seq!['$']);
        assert("."@ =~= seq!['.']);
    }
    let mut t = "$".to_owned();
    let d = u64_to_string(cents / 100);
    t.append(d.as_str());
    t.append(".");
    let f = pad2_string(cents % 100);
    t.append(f.as_str());
    proof {
        assert(t@ =~= usd_of(cents as int));
    }
    t
}

/// The hourly burn rate in cents per hour, rounded to the nearest cent with
/// ties upward: the cost scaled from the elapsed milliseconds to an hour.
pub open spec fn burn_rate_cents_of(cents: int, duration_ms: int) -> int {
    (cents * 3_600_000 * 2 + duration_ms) / (2 * duration_ms)
}

pub struct SessionCostWidget;

pub open spec fn session_cost_model(
    data: SessionData,
    raw: bool,
    meta: Seq<(String, String)>,
) -> WidgetModel {
    match data.cost {
        None => hidden_model(70),
        Some(cost) => match cost.total_cost_cents {
            None => hidden_model(70),
            Some(cents) => {
                let base = usd_of(cents as int);
                let text = if raw {
                    base
                } else if meta_flag_of(meta, "burn_rate"@) {
                    match cost.total_duration_ms {
                        Some(d) => if d > 0 {
                            let rate = burn_rate_cents_of(cents as int, d as int);
                            base + " ($"@ + dec_of(rate / 100) + seq!['.'] + pad2_of(rate % 100)
                                + "/hr)"@
                        } else {
                            base
                        },
                        None => base,
                    }
                } else {
                    base
                };
                shown_model(text, 70)
            },
        },
    }
}

impl SessionCostWidget {
    pub fn name(&self) -> (r: &'static str)
        ensures
            r@ == "session-cost"@,
    {
        "session-cost"
    }

    /// The `burn_rate` metadata flag appends the hourly rate where a
    /// positive duration is known. Nothing is shown while the cost record
    /// or the amount is absent.
    pub fn render(&self, data: &SessionData, config: &WidgetConfig) -> (out: WidgetOutput)
        ensures
            out.model() == session_cost_model(*data, config.raw_value, config.metadata@),
    {
        let cost = match &data.cost {
            Some(c) => c,
            None => { return hidden(70) },
        };
        let cents = match cost.total_cost_cents {
            Some(v) => v,
            None => { return hidden(70) },
        };
        let base = format_usd(cents);
        let text = if config.raw_value {
            base
        } else if meta_flag(&config.metadata, "burn_rate") {
            match cost.total_duration_ms {
                Some(d) => if d > 0 {
                    let rate: u128 = (cents as u128 * 7_200_000 + d as u128) / (2 * d as u128);
                    proof {
                        assert(rate as int == burn_rate_cents_of(cents as int, d as int));
                        reveal_strlit(".");
                        assert("."@ =~= seq!['.']);
                    }
                    let mut t = base;
                    t.append(" ($");
                    let whole = u128_to_string(rate / 100);
                    t.append(whole.as_str());
                    t.append(".");
                    let frac = pad2_string((rate % 100) as u64);
                    t.append(frac.as_str());
                    t.append("/hr)");
                    proof {
                        let ratei = burn_rate_cents_of(cents as int, d as int);
                        assert((rate / 100) as int == ratei / 100);
                        assert((rate % 100) as int == ratei % 100);
                        assert(t@ =~= usd_of(cents as int) + " ($"@ + dec_of(ratei / 100)
                            + seq!['.'] + pad2_of(ratei % 100) + "/hr)"@);
                    }
                    t
                } else {
                    base
                },
                None => base,
            }
        } else {
            base
        };
        shown(text, 70)
    }
}

} // verus!
