//! Shows the detected terminal width in columns.

use vstd::prelude::*;
use vstd::string::StringExecFns;
use crate::config::WidgetConfig;
use crate::data::SessionData;
use crate::text::{dec_of, u64_to_string};
use crate::widgets::{shown, shown_model, WidgetModel, WidgetOutput};

verus! {

pub struct TerminalWidthWidget;

pub open spec fn terminal_width_model(cols: Option<u16>, raw: bool) -> WidgetModel {
    let c = match cols {
        Some(w) => w as int,
        None => 80,
    };
    let text = if raw {
        dec_of(c)
    } else {
        dec_of(c) + " cols"@
    };
    shown_model(text, 20)
}

impl TerminalWidthWidget {
    pub fn name(&self) -> (r: &'static str)
        ensures
            r@ == "terminal-width"@,
    {
        "terminal-width"
    }

    /// Always visible; a failed detection falls back to eighty columns.
    pub fn render(&self, _data: &SessionData, config: &WidgetConfig, cols: &Option<u16>) -> (out:
        WidgetOutput)
        ensures
            out.model() == terminal_width_model(*cols, config.raw_value),
    {
        let c: u64 = match cols {
            Some(w) => *w as u64,
            None => 80,
        };
        let text = if config.raw_value {
            u64_to_string(c)
        } else {
            let mut t = u64_to_string(c);
            t.append(" cols");
            proof {
                assert(t@ =~= dec_of(c as int) + " cols"@);
            }
            t
        };
        shown(text, 20)
    }
}

} // verus!
