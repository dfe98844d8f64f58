//! Shows the lines added and removed during the session.

use vstd::prelude::*;
use vstd::string::StringExecFns;
use crate::config::WidgetConfig;
use crate::data::SessionData;
use crate::text::{dec_of, u64_to_string};
use crate::widgets::{hidden, hidden_model, shown, shown_model, WidgetModel, WidgetOutput};

verus! {

pub struct LinesChangedWidget;

/// The counts a session reports, zero where absent.
pub open spec fn lines_changed_counts(data: SessionData) -> (int, int) {
    match data.cost {
        None => (0, 0),
        Some(cost) => (
            match cost.total_lines_added {
                Some(a) => a as int,
                None => 0,
            },
            match cost.total_lines_removed {
                Some(r) => r as int,
                None => 0,
            },
        ),
    }
}

pub open spec fn lines_changed_model(data: SessionData, raw: bool) -> WidgetModel {
    let counts = lines_changed_counts(data);
    if counts.0 == 0 && counts.1 == 0 {
        hidden_model(40)
    } else {
        let text = if raw {
            seq!['+'] + dec_of(counts.0) + seq!['-'] + dec_of(counts.1)
        } else {
            seq!['+'] + dec_of(counts.0) + seq![' ', '-'] + dec_of(counts.1)
        };
        shown_model(text, 40)
    }
}

impl LinesChangedWidget {
    pub fn name(&self) -> (r: &'static str)
        ensures
            r@ == "lines-changed"@,
    {
        "lines-changed"
    }

    /// Nothing is shown while both counts are zero or absent.
    pub fn render(&self, data: &SessionData, config: &WidgetConfig) -> (out: WidgetOutput)
        ensures
            out.model() == lines_changed_model(*data, config.raw_value),
    {
        proof {
            reveal_strlit("+");
            reveal_strlit("-");
            reveal_strlit(" -");
            assert("+"@ =~= seq!['+']);
            assert("-"@ =~= seq!['-']);
            assert(" -"@ =~= seq![' ', '-']);
        }
        let added: u64 = match &data.cost {
            Some(c) => c.total_lines_added.unwrap_or(0),
            None => 0,
        };
        let removed: u64 = match &data.cost {
            Some(c) => c.total_lines_removed.unwrap_or(0),
            None => 0,
        };
        if added == 0 && removed == 0 {
            return hidden(40);
        }
        let mut t = "+".to_owned();
        let a = u64_to_string(added);
        t.append(a.as_str());
        if config.raw_value {
            t.append("-");
        } else {
            t.append(" -");
        }
        let r = u64_to_string(removed);
        t.append(r.as_str());
        proof {
            if config.raw_value {
                assert(t@ =~= seq!['+'] + dec_of(added as int) + seq!['-'] + dec_of(
                    removed as int,
                ));
            } else {
                assert(t@ =~= seq!['+'] + dec_of(added as int) + seq![' ', '-'] + dec_of(
                    removed as int,
                ));
            }
        }
        shown(t, 40)
    }
}

} // verus!
