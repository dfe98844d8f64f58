//! Shows the agent's name.

use vstd::prelude::*;
use crate::data::SessionData;
use crate::widgets::{hidden, hidden_model, shown, shown_model, WidgetModel, WidgetOutput};

verus! {

pub struct AgentNameWidget;

pub open spec fn agent_name_model(data: SessionData) -> WidgetModel {
    match data.agent {
        None => hidden_model(85),
        Some(a) => match a.name {
            None => hidden_model(85),
            Some(n) => if n@.len() == 0 {
                hidden_model(85)
            } else {
                shown_model(n@, 85)
            },
        },
    }
}

impl AgentNameWidget {
    pub fn name(&self) -> (r: &'static str)
        ensures
            r@ == "agent-name"@,
    {
        "agent-name"
    }

    /// Nothing is shown while the agent identity or its name is absent or empty.
    pub fn render(&self, data: &SessionData, _config: &crate::config::WidgetConfig) -> (out:
        WidgetOutput)
        ensures
            out.model() == agent_name_model(*data),
    {
        let agent = match &data.agent {
            Some(a) => a,
            None => { return hidden(85) },
        };
        let text = match &agent.name {
            Some(n) => n.clone(),
            None => String::new(),
        };
        if text.as_str().is_empty() {
            return hidden(85);
        }
        shown(text, 85)
    }
}

} // verus!
