//! Shows a separator character placed explicitly as a widget of its own,
//! width-measured for true column count.

use vstd::prelude::*;
use crate::config::{meta_get, meta_lookup, WidgetConfig};
use crate::data::SessionData;
use crate::widgets::{shown_measured, shown_measured_model, WidgetModel, WidgetOutput};

verus! {

pub struct SeparatorWidget;

pub open spec fn separator_model(meta: Seq<(String, String)>) -> WidgetModel {
    let text = match meta_lookup(meta, "char"@) {
        Some(c) => if c.len() == 0 {
            "|"@
        } else {
            c
        },
        None => "|"@,
    };
    shown_measured_model(text, 100)
}

impl SeparatorWidget {
    pub fn name(&self) -> (r: &'static str)
        ensures
            r@ == "separator"@,
    {
        "separator"
    }

    /// Always visible; the `char` metadata entry overrides the default bar.
    pub fn render(&self, _data: &SessionData, config: &WidgetConfig) -> (out: WidgetOutput)
        ensures
            out.model() == separator_model(config.metadata@),
    {
        let text = match meta_get(&config.metadata, "char") {
            Some(c) => if c.as_str().is_empty() {
                "|".to_owned()
            } else {
                c
            },
            None => "|".to_owned(),
        };
        shown_measured(text, 100)
    }
}

} // verus!
