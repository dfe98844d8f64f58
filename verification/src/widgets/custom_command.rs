//! Shows the first line an arbitrary configured command printed, resolved
//! through the time-gated cache by the caller.

use vstd::prelude::*;
use vstd::string::StringExecFns;
use crate::config::{meta_get, meta_lookup, WidgetConfig};
use crate::data::SessionData;
use crate::text::{hex_of, hex_prefix, leading_bytes};
use crate::widgets::{hidden, hidden_model, shown, shown_model, WidgetModel, WidgetOutput};

verus! {

/// The cache key for a command's output: a fixed location and the first
/// sixteen bytes of the command in hexadecimal.
pub open spec fn command_cache_path_of(command: Seq<char>) -> Seq<char> {
    "/tmp/claudeline-cmd-"@ + hex_of(leading_bytes(command, 16))
}

/// The cache file path of a command's output.
pub fn cache_path(command: &str) -> (r: String)
    ensures
        r@ == command_cache_path_of(command@),
{
    let mut r = "/tmp/claudeline-cmd-".to_owned();
    let h = hex_prefix(command, 16);
    r.append(h.as_str());
    r
}

pub struct CustomCommandWidget;

pub open spec fn custom_command_model(
    meta: Seq<(String, String)>,
    resolved: Option<String>,
) -> WidgetModel {
    match meta_lookup(meta, "command"@) {
        Some(c) => if c.len() == 0 {
            hidden_model(40)
        } else {
            match resolved {
                Some(t) => shown_model(t@, 40),
                None => hidden_model(40),
            }
        },
        None => hidden_model(40),
    }
}

impl CustomCommandWidget {
    pub fn name(&self) -> (r: &'static str)
        ensures
            r@ == "custom-command"@,
    {
        "custom-command"
    }

    /// Shows the resolved output verbatim. Nothing is shown while the
    /// `command` metadata entry is absent or empty, or while the command
    /// produced nothing.
    pub fn render(&self, _data: &SessionData, config: &WidgetConfig, resolved: &Option<String>) -> (
        out: WidgetOutput)
        ensures
            out.model() == custom_command_model(config.metadata@, *resolved),
    {
        let cmd = match meta_get(&config.metadata, "command") {
            Some(c) => c,
            None => { return hidden(40) },
        };
        if cmd.as_str().is_empty() {
            return hidden(40);
        }
        match resolved {
            Some(t) => shown(t.clone(), 40),
            None => hidden(40),
        }
    }
}

} // verus!
