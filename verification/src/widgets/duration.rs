//! Shows the session's total duration, optionally with the API share.

use vstd::prelude::*;
use vstd::string::StrSliceExecFns;
use vstd::string::StringExecFns;
use crate::config::{meta_flag, meta_flag_of, WidgetConfig};
use crate::data::SessionData;
use crate::text::{dec_of, u128_to_string, u64_to_string};
use crate::widgets::{hidden, hidden_model, shown, shown_model, WidgetModel, WidgetOutput};

verus! {

/// A duration in milliseconds rendered as hours and minutes, or minutes and
/// seconds below an hour; the compact form omits the blanks.
pub open spec fn format_duration_of(ms: int, compact: bool) -> Seq<char> {
    let total_secs = ms / 1000;
    let hours = total_secs / 3600;
    let mins = (total_secs % 3600) / 60;
    let secs = total_secs % 60;
    if compact {
        if hours > 0 {
            dec_of(hours) + seq!['h'] + dec_of(mins) + seq!['m']
        } else {
            dec_of(mins) + seq!['m'] + dec_of(secs) + seq!['s']
        }
    } else {
        if hours > 0 {
            dec_of(hours) + seq!['h', ' '] + dec_of(mins) + seq!['m']
        } else {
            dec_of(mins) + seq!['m', ' '] + dec_of(secs) + seq!['s']
        }
    }
}

/// Render a duration in milliseconds as hours/minutes or minutes/seconds.
pub fn format_duration(ms: u64, compact: bool) -> (r: String)
    ensures
        r@ == format_duration_of(ms as int, compact),
{
    proof {
        reveal_strlit("h");
        reveal_strlit("m");
        reveal_strlit("s");
        reveal_strlit("h ");
        reveal_strlit("m ");
        assert("h"@ =~= seq!['h']);
        assert("m"@ =~= seq!['m']);
        assert("s"@ =~= seq!['s']);
        assert("h "@ =~= seq!['h', ' ']);
        assert("m "@ =~= seq!['m', ' ']);
    }
    let total_secs = ms / 1000;
    let hours = total_secs / 3600;
    let mins = (total_secs % 3600) / 60;
    let secs = total_secs % 60;
    let mut t: String;
    if hours > 0 {
        t = u64_to_string(hours);
        if compact {
            t.append("h");
        } else {
            t.append("h ");
        }
        let m = u64_to_string(mins);
        t.append(m.as_str());
        t.append("m");
    } else {
        t = u64_to_string(mins);
        if compact {
            t.append("m");
        } else {
            t.append("m ");
        }
        let s2 = u64_to_string(secs);
        t.append(s2.as_str());
        t.append("s");
    }
    proof {
        assert(t@ =~= format_duration_of(ms as int, compact));
    }
    t
}

pub struct SessionDurationWidget;

pub open spec fn session_duration_model(
    data: SessionData,
    raw: bool,
    meta: Seq<(String, String)>,
) -> WidgetModel {
    match data.cost {
        None => hidden_model(65),
        Some(cost) => match cost.total_duration_ms {
            None => hidden_model(65),
            Some(d) => {
                let text = if raw {
                    format_duration_of(d as int, true)
                } else if meta_flag_of(meta, "api_ratio"@) {
                    match cost.total_api_duration_ms {
                        Some(api) => if d > 0 {
                            format_duration_of(d as int, false) + " (API: "@ + dec_of(
                                (api as int * 100) / (d as int),
                            ) + "%)"@
                        } else {
                            format_duration_of(d as int, false)
                        },
                        None => format_duration_of(d as int, false),
                    }
                } else {
                    format_duration_of(d as int, false)
                };
                shown_model(text, 65)
            },
        },
    }
}

impl SessionDurationWidget {
    pub fn name(&self) -> (r: &'static str)
        ensures
            r@ == "session-duration"@,
    {
        "session-duration"
    }

    /// The terse form is compact; the `api_ratio` metadata flag appends the
    /// API share of the duration as a floored percentage. Nothing is shown
    /// while the cost record or the duration is absent.
    pub fn render(&self, data: &SessionData, config: &WidgetConfig) -> (out: WidgetOutput)
        ensures
            out.model() == session_duration_model(*data, config.raw_value, config.metadata@),
    {
        let cost = match &data.cost {
            Some(c) => c,
            None => { return hidden(65) },
        };
        let d = match cost.total_duration_ms {
            Some(d) => d,
            None => { return hidden(65) },
        };
        let text = if config.raw_value {
            format_duration(d, true)
        } else if meta_flag(&config.metadata, "api_ratio") {
            match cost.total_api_duration_ms {
                Some(api) => if d > 0 {
                    let ratio = (api as u128 * 100) / (d as u128);
                    let mut t = format_duration(d, false);
                    t.append(" (API: ");
                    let rs = u128_to_string(ratio);
                    t.append(rs.as_str());
                    t.append("%)");
                    proof {
                        assert((api as u128 * 100) as int / (d as u128) as int == (api as int * 100)
                            / (d as int));
                        assert(t@ =~= format_duration_of(d as int, false) + " (API: "@ + dec_of(
                            (api as int * 100) / (d as int),
                        ) + "%)"@);
                    }
                    t
                } else {
                    format_duration(d, false)
                },
                None => format_duration(d, false),
            }
        } else {
            format_duration(d, false)
        };
        shown(text, 65)
    }
}

} // verus!
