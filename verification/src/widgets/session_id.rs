//! Shows the first eight characters of the session identifier.

use vstd::prelude::*;
use vstd::string::StrSliceExecFns;
use crate::config::WidgetConfig;
use crate::data::SessionData;
use crate::widgets::{hidden, hidden_model, shown, shown_model, WidgetModel, WidgetOutput};

verus! {

pub struct SessionIdWidget;

pub open spec fn session_id_model(data: SessionData) -> WidgetModel {
    match data.session_id {
        None => hidden_model(20),
        Some(sid) => {
            let text = if sid@.len() <= 8 {
                sid@
            } else {
                sid@.take(8)
            };
            shown_model(text, 20)
        },
    }
}

impl SessionIdWidget {
    pub fn name(&self) -> (r: &'static str)
        ensures
            r@ == "session-id"@,
    {
        "session-id"
    }

    /// Nothing is shown while the session identifier is absent.
    pub fn render(&self, data: &SessionData, _config: &WidgetConfig) -> (out: WidgetOutput)
        ensures
            out.model() == session_id_model(*data),
    {
        let sid = match &data.session_id {
            Some(s) => s,
            None => { return hidden(20) },
        };
        let n = sid.as_str().unicode_len();
        let text = if n <= 8 {
            sid.clone()
        } else {
            sid.as_str().substring_char(0, 8).to_owned()
        };
        shown(text, 20)
    }
}

} // verus!
