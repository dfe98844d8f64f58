//! Shows a warning marker while the session exceeds the token threshold.

use vstd::prelude::*;
use crate::config::WidgetConfig;
use crate::data::SessionData;
use crate::widgets::{hidden, hidden_model, shown, shown_model, WidgetModel, WidgetOutput};

verus! {

pub struct ExceedsTokensWidget;

pub open spec fn exceeds_tokens_model(data: SessionData) -> WidgetModel {
    match data.exceeds_200k_tokens {
        Some(true) => shown_model("!200K"@, 95),
        _ => hidden_model(95),
    }
}

impl ExceedsTokensWidget {
    pub fn name(&self) -> (r: &'static str)
        ensures
            r@ == "exceeds-tokens"@,
    {
        "exceeds-tokens"
    }

    /// The marker appears only while the threshold flag is present and set.
    pub fn render(&self, data: &SessionData, _config: &WidgetConfig) -> (out: WidgetOutput)
        ensures
            out.model() == exceeds_tokens_model(*data),
    {
        match data.exceeds_200k_tokens {
            Some(true) => shown("!200K".to_owned(), 95),
            _ => hidden(95),
        }
    }
}

} // verus!
