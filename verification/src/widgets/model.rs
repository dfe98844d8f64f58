//! Shows the model identity.

use vstd::prelude::*;
use crate::config::WidgetConfig;
use crate::data::SessionData;
use crate::widgets::{hidden, hidden_model, shown, shown_model, WidgetModel, WidgetOutput};

verus! {

pub struct ModelWidget;

pub open spec fn model_model(data: SessionData, raw: bool) -> WidgetModel {
    match data.model {
        None => hidden_model(90),
        Some(m) => {
            let text = if raw {
                match m.id {
                    Some(id) => id@,
                    None => Seq::<char>::empty(),
                }
            } else {
                match m.display_name {
                    Some(n) => n@,
                    None => match m.id {
                        Some(id) => id@,
                        None => Seq::<char>::empty(),
                    },
                }
            };
            shown_model(text, 90)
        },
    }
}

impl ModelWidget {
    pub fn name(&self) -> (r: &'static str)
        ensures
            r@ == "model"@,
    {
        "model"
    }

    /// The terse form shows the raw identifier; the labeled form prefers the
    /// display name. Nothing is shown while the model identity is absent.
    pub fn render(&self, data: &SessionData, config: &WidgetConfig) -> (out: WidgetOutput)
        ensures
            out.model() == model_model(*data, config.raw_value),
    {
        let m = match &data.model {
            Some(m) => m,
            None => { return hidden(90) },
        };
        let text = if config.raw_value {
            match &m.id {
                Some(id) => id.clone(),
                None => String::new(),
            }
        } else {
            match &m.display_name {
                Some(n) => n.clone(),
                None => match &m.id {
                    Some(id) => id.clone(),
                    None => String::new(),
                },
            }
        };
        shown(text, 90)
    }
}

} // verus!
