//! Shows the worktree's folder name while the working directory lies in a
//! linked source-control worktree rather than the main checkout.

use vstd::prelude::*;
use vstd::string::StringExecFns;
use crate::config::WidgetConfig;
use crate::data::SessionData;
use crate::resolve::WorktreeResolution;
use crate::text::{basename, basename_of, str_eq};
use crate::widgets::cwd::{get_working_dir, working_dir_of};
use crate::widgets::{hidden, hidden_model, shown, shown_model, WidgetModel, WidgetOutput};

verus! {

/// Whether the resolved paths show a linked worktree: the common directory
/// differs from the toplevel's own `.git`, both as resolved paths and as
/// the query's literal answer.
pub open spec fn is_worktree_of(wt: WorktreeResolution) -> bool {
    wt.common_resolved@ != wt.toplevel_git_resolved@ && wt.git_common_dir@ != ".git"@
        && wt.git_common_dir@ != wt.toplevel@ + "/.git"@
}

pub struct GitWorktreeWidget;

pub open spec fn git_worktree_model(
    data: SessionData,
    raw: bool,
    wt: Option<WorktreeResolution>,
) -> WidgetModel {
    match working_dir_of(data) {
        None => hidden_model(45),
        Some(_) => match wt {
            None => hidden_model(45),
            Some(w) => if !is_worktree_of(w) {
                hidden_model(45)
            } else {
                let folder = match basename_of(w.toplevel@) {
                    Some(b) => b,
                    None => Seq::<char>::empty(),
                };
                let text = if raw {
                    folder
                } else {
                    "WT: "@ + folder
                };
                shown_model(text, 45)
            },
        },
    }
}

impl GitWorktreeWidget {
    pub fn name(&self) -> (r: &'static str)
        ensures
            r@ == "git-worktree"@,
    {
        "git-worktree"
    }

    /// Nothing is shown without a working directory, where the queries
    /// failed, or where the resolved paths show the main checkout.
    pub fn render(
        &self,
        data: &SessionData,
        config: &WidgetConfig,
        wt: &Option<WorktreeResolution>,
    ) -> (out: WidgetOutput)
        ensures
            out.model() == git_worktree_model(*data, config.raw_value, *wt),
    {
        if get_working_dir(data).is_none() {
            return hidden(45);
        }
        let w = match wt {
            Some(w) => w,
            None => { return hidden(45) },
        };
        let mut toplevel_git = w.toplevel.clone();
        toplevel_git.append("/.git");
        let is_worktree = !str_eq(w.common_resolved.as_str(), w.toplevel_git_resolved.as_str())
            && !str_eq(w.git_common_dir.as_str(), ".git") && !str_eq(
            w.git_common_dir.as_str(),
            toplevel_git.as_str(),
        );
        if !is_worktree {
            return hidden(45);
        }
        let folder = match basename(w.toplevel.as_str()) {
            Some(b) => b,
            None => String::new(),
        };
        let text = if config.raw_value {
            folder
        } else {
            let mut t = "WT: ".to_owned();
            t.append(folder.as_str());
            t
        };
        shown(text, 45)
    }
}

} // verus!
