//! Token-count widgets and the shared count formatting: compact counts
//! compress to `K`/`M` forms, verbose counts carry thousands separators.

use vstd::prelude::*;
use vstd::string::StringExecFns;
use crate::config::WidgetConfig;
use crate::data::{SessionData, UsageInfo};
use crate::text::{dec_of, grouped_of, u128_to_grouped_string, u128_to_string};
use crate::widgets::{
    hidden, hidden_model, or_zero, shown, shown_model, WidgetModel, WidgetOutput,
};

verus! {

/// The compact form of a count: tenths of millions with an `M` above a
/// million (rounded, ties upward), whole thousands with a `K` above a
/// thousand, plain digits below.
pub open spec fn tokens_compact_of(n: int) -> Seq<char> {
    if n >= 1_000_000 {
        let tenths = n / 100_000 + (if n % 100_000 >= 50_000 {
            1int
        } else {
            0int
        });
        dec_of(tenths / 10) + seq!['.'] + dec_of(tenths % 10) + seq!['M']
    } else if n >= 1000 {
        dec_of(n / 1000) + seq!['K']
    } else {
        dec_of(n)
    }
}

/// Format a token count: the compact `K`/`M` form, or the verbose
/// thousands-separated form.
pub fn format_tokens(n: u128, compact: bool) -> (r: String)
    ensures
        r@ == if compact {
            tokens_compact_of(n as int)
        } else {
            grouped_of(n as int)
        },
{
    if compact {
        proof {
            reveal_strlit(".");
            reveal_strlit("K");
            reveal_strlit("M");
            assert("."@ =~= seq!['.']);
            assert("K"@ =~= seq!['K']);
            assert("M"@ =~= seq!['M']);
        }
        if n >= 1_000_000 {
            let q = n / 100_000;
            let tenths = if n % 100_000 >= 50_000 {
                q + 1
            } else {
                q
            };
            let mut t = u128_to_string(tenths / 10);
            t.append(".");
            let frac = u128_to_string(tenths % 10);
            t.append(frac.as_str());
            t.append("M");
            proof {
                assert(t@ =~= tokens_compact_of(n as int));
            }
            t
        } else if n >= 1000 {
            let mut t = u128_to_string(n / 1000);
            t.append("K");
            proof {
                assert(t@ =~= tokens_compact_of(n as int));
            }
            t
        } else {
            u128_to_string(n)
        }
    } else {
        u128_to_grouped_string(n)
    }
}

/// The usage record inside the context-window record, where both exist.
pub open spec fn current_usage_of(data: SessionData) -> Option<UsageInfo> {
    match data.context_window {
        Some(cw) => cw.current_usage,
        None => None,
    }
}

fn current_usage(data: &SessionData) -> (r: Option<&UsageInfo>)
    ensures
        match r {
            Some(u) => current_usage_of(*data) == Some(*u),
            None => current_usage_of(*data) is None,
        },
{
    match &data.context_window {
        Some(cw) => match &cw.current_usage {
            Some(u) => Some(u),
            None => None,
        },
        None => None,
    }
}

/// The text of a count widget: compact for the terse form, labeled verbose
/// otherwise.
pub open spec fn count_text_of(label: Seq<char>, v: int, raw: bool) -> Seq<char> {
    if raw {
        tokens_compact_of(v)
    } else {
        label + grouped_of(v)
    }
}

fn count_text(label: &str, v: u128, raw: bool) -> (r: String)
    ensures
        r@ == count_text_of(label@, v as int, raw),
{
    if raw {
        format_tokens(v, true)
    } else {
        let mut t = label.to_owned();
        let d = format_tokens(v, false);
        t.append(d.as_str());
        t
    }
}

pub struct TokenInputWidget;

pub open spec fn token_input_model(data: SessionData, raw: bool) -> WidgetModel {
    match current_usage_of(data) {
        None => hidden_model(55),
        Some(u) => shown_model(count_text_of("In: "@, or_zero(u.input_tokens), raw), 55),
    }
}

impl TokenInputWidget {
    pub fn name(&self) -> (r: &'static str)
        ensures
            r@ == "tokens-input"@,
    {
        "tokens-input"
    }

    /// Nothing is shown while the usage record is absent.
    pub fn render(&self, data: &SessionData, config: &WidgetConfig) -> (out: WidgetOutput)
        ensures
            out.model() == token_input_model(*data, config.raw_value),
    {
        let u = match current_usage(data) {
            Some(u) => u,
            None => { return hidden(55) },
        };
        let val: u128 = u.input_tokens.unwrap_or(0) as u128;
        shown(count_text("In: ", val, config.raw_value), 55)
    }
}

pub struct TokenOutputWidget;

pub open spec fn token_output_model(data: SessionData, raw: bool) -> WidgetModel {
    match current_usage_of(data) {
        None => hidden_model(53),
        Some(u) => shown_model(count_text_of("Out: "@, or_zero(u.output_tokens), raw), 53),
    }
}

impl TokenOutputWidget {
    pub fn name(&self) -> (r: &'static str)
        ensures
            r@ == "tokens-output"@,
    {
        "tokens-output"
    }

    /// Nothing is shown while the usage record is absent.
    pub fn render(&self, data: &SessionData, config: &WidgetConfig) -> (out: WidgetOutput)
        ensures
            out.model() == token_output_model(*data, config.raw_value),
    {
        let u = match current_usage(data) {
            Some(u) => u,
            None => { return hidden(53) },
        };
        let val: u128 = u.output_tokens.unwrap_or(0) as u128;
        shown(count_text("Out: ", val, config.raw_value), 53)
    }
}

pub struct TokenCachedWidget;

pub open spec fn token_cached_model(data: SessionData, raw: bool) -> WidgetModel {
    match current_usage_of(data) {
        None => hidden_model(51),
        Some(u) => shown_model(
            count_text_of(
                "Cache: "@,
                or_zero(u.cache_creation_input_tokens) + or_zero(u.cache_read_input_tokens),
                raw,
            ),
            51,
        ),
    }
}

impl TokenCachedWidget {
    pub fn name(&self) -> (r: &'static str)
        ensures
            r@ == "tokens-cached"@,
    {
        "tokens-cached"
    }

    /// Shows the cache-creation and cache-read counts together. Nothing is
    /// shown while the usage record is absent.
    pub fn render(&self, data: &SessionData, config: &WidgetConfig) -> (out: WidgetOutput)
        ensures
            out.model() == token_cached_model(*data, config.raw_value),
    {
        let u = match current_usage(data) {
            Some(u) => u,
            None => { return hidden(51) },
        };
        let val: u128 = u.cache_creation_input_tokens.unwrap_or(0) as u128
            + u.cache_read_input_tokens.unwrap_or(0) as u128;
        shown(count_text("Cache: ", val, config.raw_value), 51)
    }
}

pub struct TokenTotalWidget;

pub open spec fn token_total_model(data: SessionData, raw: bool) -> WidgetModel {
    match current_usage_of(data) {
        None => hidden_model(50),
        Some(u) => shown_model(
            count_text_of(
                "Total: "@,
                or_zero(u.input_tokens) + or_zero(u.output_tokens) + or_zero(
                    u.cache_creation_input_tokens,
                ) + or_zero(u.cache_read_input_tokens),
                raw,
            ),
            50,
        ),
    }
}

impl TokenTotalWidget {
    pub fn name(&self) -> (r: &'static str)
        ensures
            r@ == "tokens-total"@,
    {
        "tokens-total"
    }

    /// Shows the sum of every token count. Nothing is shown while the usage
    /// record is absent.
    pub fn render(&self, data: &SessionData, config: &WidgetConfig) -> (out: WidgetOutput)
        ensures
            out.model() == token_total_model(*data, config.raw_value),
    {
        let u = match current_usage(data) {
            Some(u) => u,
            None => { return hidden(50) },
        };
        let val: u128 = u.input_tokens.unwrap_or(0) as u128 + u.output_tokens.unwrap_or(0) as u128
            + u.cache_creation_input_tokens.unwrap_or(0) as u128 + u.cache_read_input_tokens
            .unwrap_or(0) as u128;
        shown(count_text("Total: ", val, config.raw_value), 50)
    }
}

} // verus!
