//! Shows the working tree's status: counts of staged, modified and
//! untracked entries, parsed from porcelain-format status output.

use vstd::prelude::*;
use vstd::string::StrSliceExecFns;
use vstd::string::StringExecFns;
use crate::config::WidgetConfig;
use crate::data::SessionData;
use crate::resolve::GitStatusSource;
use crate::text::{dec_of, join_with, split_char, split_on, trim, trim_of, u64_to_string, views_of};
use crate::widgets::cwd::{get_working_dir, working_dir_of};
use crate::widgets::{hidden, hidden_model, shown, shown_model, WidgetModel, WidgetOutput};

verus! {

/// Whether a status line's index column marks a staged change.
pub open spec fn is_staged_mark(c: char) -> bool {
    c == 'A' || c == 'M' || c == 'D' || c == 'R'
}

/// Whether a status line's working-tree column marks a modification.
pub open spec fn is_modified_mark(c: char) -> bool {
    c == 'M' || c == 'D'
}

/// The (staged, modified, untracked) counts of porcelain status lines:
/// lines of fewer than two characters count nowhere, `??` lines count as
/// untracked, all others by their index and working-tree columns.
pub open spec fn status_counts_of(lines: Seq<Seq<char>>) -> (int, int, int)
    decreases lines.len(),
{
    if lines.len() == 0 {
        (0, 0, 0)
    } else {
        let r = status_counts_of(lines.drop_last());
        let l = lines.last();
        if l.len() < 2 {
            r
        } else if l[0] == '?' && l[1] == '?' {
            (r.0, r.1, r.2 + 1)
        } else {
            (
                r.0 + if is_staged_mark(l[0]) {
                    1int
                } else {
                    0int
                },
                r.1 + if is_modified_mark(l[1]) {
                    1int
                } else {
                    0int
                },
                r.2,
            )
        }
    }
}

/// The status text: the present counts as `+n`, `~n` and `?n`, joined with
/// blanks; empty where every count is zero.
pub open spec fn format_status_of(staged: int, modified: int, untracked: int) -> Seq<char> {
    let parts = (if staged > 0 {
        seq![seq!['+'] + dec_of(staged)]
    } else {
        Seq::<Seq<char>>::empty()
    }) + (if modified > 0 {
        seq![seq!['~'] + dec_of(modified)]
    } else {
        Seq::<Seq<char>>::empty()
    }) + (if untracked > 0 {
        seq![seq!['?'] + dec_of(untracked)]
    } else {
        Seq::<Seq<char>>::empty()
    });
    join_with(parts, " "@)
}

/// Render the status counts, omitting the zero ones.
pub fn format_status(staged: usize, modified: usize, untracked: usize) -> (r: String)
    ensures
        r@ == format_status_of(staged as int, modified as int, untracked as int),
{
    proof {
        reveal_strlit("+");
        reveal_strlit("~");
        reveal_strlit("?");
        assert("+"@ =~= seq!['+']);
        assert("~"@ =~= seq!['~']);
        assert("?"@ =~= seq!['?']);
    }
    let mut parts: Vec<String> = Vec::new();
    if staged > 0 {
        let mut p = "+".to_owned();
        let d = u64_to_string(staged as u64);
        p.append(d.as_str());
        parts.push(p);
    }
    if modified > 0 {
        let mut p = "~".to_owned();
        let d = u64_to_string(modified as u64);
        p.append(d.as_str());
        parts.push(p);
    }
    if untracked > 0 {
        let mut p = "?".to_owned();
        let d = u64_to_string(untracked as u64);
        p.append(d.as_str());
        parts.push(p);
    }
    let r = crate::text::join_parts(&parts, " ");
    proof {
        let spec_parts = (if staged > 0 {
            seq![seq!['+'] + dec_of(staged as int)]
        } else {
            Seq::<Seq<char>>::empty()
        }) + (if modified > 0 {
            seq![seq!['~'] + dec_of(modified as int)]
        } else {
            Seq::<Seq<char>>::empty()
        }) + (if untracked > 0 {
            seq![seq!['?'] + dec_of(untracked as int)]
        } else {
            Seq::<Seq<char>>::empty()
        });
        assert(views_of(parts@) =~= spec_parts);
    }
    r
}

pub struct GitStatusWidget;

pub open spec fn git_status_model(data: SessionData, src: GitStatusSource) -> WidgetModel {
    match working_dir_of(data) {
        None => hidden_model(70),
        Some(_) => match src {
            GitStatusSource::Cached(s) => shown_model(trim_of(s@), 70),
            GitStatusSource::Porcelain(out) => {
                let counts = status_counts_of(split_on(out@, '\n'));
                shown_model(format_status_of(counts.0, counts.1, counts.2), 70)
            },
            GitStatusSource::Unavailable => hidden_model(70),
        },
    }
}

impl GitStatusWidget {
    pub fn name(&self) -> (r: &'static str)
        ensures
            r@ == "git-status"@,
    {
        "git-status"
    }

    /// A fresh cached value is shown trimmed (an empty one still counts as
    /// visible); fresh porcelain output is parsed and its counts shown.
    /// Nothing is shown without a working directory or where the status
    /// query failed.
    pub fn render(&self, data: &SessionData, _config: &WidgetConfig, src: &GitStatusSource) -> (out:
        WidgetOutput)
        ensures
            out.model() == git_status_model(*data, *src),
    {
        if get_working_dir(data).is_none() {
            return hidden(70);
        }
        match src {
            GitStatusSource::Cached(s) => shown(trim(s.as_str()), 70),
            GitStatusSource::Porcelain(output) => {
                let lines = split_char(output.as_str(), '\n');
                let ghost ls = split_on(output@, '\n');
                let mut staged: usize = 0;
                let mut modified: usize = 0;
                let mut untracked: usize = 0;
                let mut i: usize = 0;
                proof {
                    assert(ls.take(0) =~= Seq::<Seq<char>>::empty());
                }
                while i < lines.len()
                    invariant
                        views_of(lines@) == ls,
                        lines@.len() == ls.len(),
                        i <= lines@.len(),
                        staged <= i && modified <= i && untracked <= i,
                        (staged as int, modified as int, untracked as int) == status_counts_of(
                            ls.take(i as int),
                        ),
                    decreases lines@.len() - i,
                {
                    proof {
                        assert(ls.take(i + 1).drop_last() =~= ls.take(i as int));
                        assert(ls.take(i + 1).last() == ls[i as int]);
                        assert(views_of(lines@)[i as int] == lines@[i as int]@);
                    }
                    let ln = &lines[i];
                    if ln.as_str().unicode_len() >= 2 {
                        let c0 = ln.as_str().get_char(0);
                        let c1 = ln.as_str().get_char(1);
                        if c0 == '?' && c1 == '?' {
                            untracked = untracked + 1;
                        } else {
                            if c0 == 'A' || c0 == 'M' || c0 == 'D' || c0 == 'R' {
                                staged = staged + 1;
                            }
                            if c1 == 'M' || c1 == 'D' {
                                modified = modified + 1;
                            }
                        }
                    }
                    i = i + 1;
                }
                proof {
                    assert(ls.take(ls.len() as int) =~= ls);
                }
                shown(format_status(staged, modified, untracked), 70)
            },
            GitStatusSource::Unavailable => hidden(70),
        }
    }
}

} // verus!
