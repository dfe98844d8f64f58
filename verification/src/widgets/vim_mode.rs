//! Shows the editor mode.

use vstd::prelude::*;
use crate::config::WidgetConfig;
use crate::data::SessionData;
use crate::widgets::{hidden, hidden_model, shown, shown_model, WidgetModel, WidgetOutput};

verus! {

pub struct VimModeWidget;

pub open spec fn vim_mode_model(data: SessionData) -> WidgetModel {
    match data.vim {
        None => hidden_model(95),
        Some(v) => {
            let text = match v.mode {
                Some(m) => m@,
                None => "NORMAL"@,
            };
            shown_model(text, 95)
        },
    }
}

impl VimModeWidget {
    pub fn name(&self) -> (r: &'static str)
        ensures
            r@ == "vim-mode"@,
    {
        "vim-mode"
    }

    /// A reported mode is shown as-is; a present editor record without a
    /// mode falls back to `NORMAL`. Nothing is shown without the record.
    pub fn render(&self, data: &SessionData, _config: &WidgetConfig) -> (out: WidgetOutput)
        ensures
            out.model() == vim_mode_model(*data),
    {
        let v = match &data.vim {
            Some(v) => v,
            None => { return hidden(95) },
        };
        let text = match &v.mode {
            Some(m) => m.clone(),
            None => "NORMAL".to_owned(),
        };
        shown(text, 95)
    }
}

} // verus!
