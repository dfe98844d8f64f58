//! Shows the output style's name, when one other than the default is set.

use vstd::prelude::*;
use crate::config::WidgetConfig;
use crate::data::SessionData;
use crate::text::str_eq;
use crate::widgets::{hidden, hidden_model, shown, shown_model, WidgetModel, WidgetOutput};

verus! {

pub struct OutputStyleWidget;

pub open spec fn output_style_model(data: SessionData) -> WidgetModel {
    match data.output_style {
        None => hidden_model(30),
        Some(style) => match style.name {
            Some(n) => if n@ == "default"@ {
                hidden_model(30)
            } else {
                shown_model(n@, 30)
            },
            None => hidden_model(30),
        },
    }
}

impl OutputStyleWidget {
    pub fn name(&self) -> (r: &'static str)
        ensures
            r@ == "output-style"@,
    {
        "output-style"
    }

    /// Nothing is shown while the style record or its name is absent, or
    /// while the default style is selected.
    pub fn render(&self, data: &SessionData, _config: &WidgetConfig) -> (out: WidgetOutput)
        ensures
            out.model() == output_style_model(*data),
    {
        let style = match &data.output_style {
            Some(s) => s,
            None => { return hidden(30) },
        };
        let n = match &style.name {
            Some(n) => n,
            None => { return hidden(30) },
        };
        if str_eq(n.as_str(), "default") {
            return hidden(30);
        }
        shown(n.clone(), 30)
    }
}

} // verus!
