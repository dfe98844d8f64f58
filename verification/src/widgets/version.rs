//! Shows the version string, prefixed with `v` where it lacks one.

use vstd::prelude::*;
use vstd::string::StrSliceExecFns;
use vstd::string::StringExecFns;
use crate::config::WidgetConfig;
use crate::data::SessionData;
use crate::widgets::{hidden, hidden_model, shown, shown_model, WidgetModel, WidgetOutput};

verus! {

pub struct VersionWidget;

pub open spec fn version_model(data: SessionData) -> WidgetModel {
    match data.version {
        None => hidden_model(25),
        Some(ver) => {
            let text = if ver@.len() > 0 && ver@[0] == 'v' {
                ver@
            } else {
                seq!['v'] + ver@
            };
            shown_model(text, 25)
        },
    }
}

impl VersionWidget {
    pub fn name(&self) -> (r: &'static str)
        ensures
            r@ == "version"@,
    {
        "version"
    }

    /// Nothing is shown while the version string is absent.
    pub fn render(&self, data: &SessionData, _config: &WidgetConfig) -> (out: WidgetOutput)
        ensures
            out.model() == version_model(*data),
    {
        let ver = match &data.version {
            Some(v) => v,
            None => { return hidden(25) },
        };
        let vs = ver.as_str();
        let text = if !vs.is_empty() && vs.get_char(0) == 'v' {
            ver.clone()
        } else {
            proof {
                reveal_strlit("v");
                assert("v"@ =~= seq!['v']);
            }
            let mut t = "v".to_owned();
            t.append(vs);
            t
        };
        shown(text, 25)
    }
}

} // verus!
