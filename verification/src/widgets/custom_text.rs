//! Shows a fixed text from the configuration, width-measured for true
//! column count since it may hold wide characters.

use vstd::prelude::*;
use crate::config::{meta_get, meta_lookup, WidgetConfig};
use crate::data::SessionData;
use crate::widgets::{
    hidden, hidden_model, shown_measured, shown_measured_model, WidgetModel, WidgetOutput,
};

verus! {

pub struct CustomTextWidget;

pub open spec fn custom_text_model(meta: Seq<(String, String)>) -> WidgetModel {
    match meta_lookup(meta, "text"@) {
        Some(t) => if t.len() == 0 {
            hidden_model(30)
        } else {
            shown_measured_model(t, 30)
        },
        None => hidden_model(30),
    }
}

impl CustomTextWidget {
    pub fn name(&self) -> (r: &'static str)
        ensures
            r@ == "custom-text"@,
    {
        "custom-text"
    }

    /// Nothing is shown while the `text` metadata entry is absent or empty.
    pub fn render(&self, _data: &SessionData, config: &WidgetConfig) -> (out: WidgetOutput)
        ensures
            out.model() == custom_text_model(config.metadata@),
    {
        let text = match meta_get(&config.metadata, "text") {
            Some(t) => t,
            None => { return hidden(30) },
        };
        if text.as_str().is_empty() {
            return hidden(30);
        }
        shown_measured(text, 30)
    }
}

} // verus!
