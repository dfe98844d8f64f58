//! Shows the current source-control branch, or the short commit hash on a
//! detached head.

use vstd::prelude::*;
use vstd::string::StringExecFns;
use crate::config::WidgetConfig;
use crate::data::SessionData;
use crate::resolve::GitBranchSource;
use crate::text::{hex_of, leading_bytes, hex_prefix, trim, trim_of};
use crate::widgets::cwd::working_dir_of;
use crate::widgets::cwd::get_working_dir;
use crate::widgets::{hidden, hidden_model, shown, shown_model, WidgetModel, WidgetOutput};

verus! {

/// The cache key for a source-control lookup: a fixed location, the lookup's
/// prefix, and the first eight bytes of the directory in hexadecimal.
pub open spec fn git_cache_path_of(prefix: Seq<char>, dir: Seq<char>) -> Seq<char> {
    "/tmp/claudeline-"@ + prefix + seq!['-'] + hex_of(leading_bytes(dir, 8))
}

/// The cache file path of a source-control lookup for a directory.
pub fn cache_path(prefix: &str, dir: &str) -> (r: String)
    ensures
        r@ == git_cache_path_of(prefix@, dir@),
{
    proof {
        reveal_strlit("-");
        assert("-"@ =~= seq!['-']);
    }
    let mut r = "/tmp/claudeline-".to_owned();
    r.append(prefix);
    r.append("-");
    let h = hex_prefix(dir, 8);
    r.append(h.as_str());
    proof {
        assert(r@ =~= git_cache_path_of(prefix@, dir@));
    }
    r
}

pub struct GitBranchWidget;

pub open spec fn git_branch_model(data: SessionData, src: GitBranchSource) -> WidgetModel {
    match working_dir_of(data) {
        None => hidden_model(75),
        Some(_) => match src {
            GitBranchSource::Cached(s) => shown_model(trim_of(s@), 75),
            GitBranchSource::Commands { branch, head } => {
                let b = match branch {
                    Some(bs) => if trim_of(bs@).len() > 0 {
                        Some(trim_of(bs@))
                    } else {
                        None
                    },
                    None => None,
                };
                match b {
                    Some(t) => shown_model(t, 75),
                    None => match head {
                        Some(hs) => if trim_of(hs@).len() > 0 {
                            shown_model(trim_of(hs@), 75)
                        } else {
                            hidden_model(75)
                        },
                        None => hidden_model(75),
                    },
                }
            },
        },
    }
}

impl GitBranchWidget {
    pub fn name(&self) -> (r: &'static str)
        ensures
            r@ == "git-branch"@,
    {
        "git-branch"
    }

    /// A fresh cached value is shown trimmed; else the branch query's output,
    /// trimmed, where non-empty; else the detached-head fallback's output,
    /// trimmed, where non-empty. Nothing is shown without a working
    /// directory or where every lookup came back empty.
    pub fn render(&self, data: &SessionData, _config: &WidgetConfig, src: &GitBranchSource) -> (out:
        WidgetOutput)
        ensures
            out.model() == git_branch_model(*data, *src),
    {
        if get_working_dir(data).is_none() {
            return hidden(75);
        }
        match src {
            GitBranchSource::Cached(s) => shown(trim(s.as_str()), 75),
            GitBranchSource::Commands { branch, head } => {
                if let Some(bs) = branch {
                    let t = trim(bs.as_str());
                    if !t.as_str().is_empty() {
                        return shown(t, 75);
                    }
                }
                if let Some(hs) = head {
                    let t = trim(hs.as_str());
                    if !t.as_str().is_empty() {
                        return shown(t, 75);
                    }
                }
                hidden(75)
            },
        }
    }
}

} // verus!
