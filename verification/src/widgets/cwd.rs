//! Shows the working directory: its base name by default, the home-
//! abbreviated full path, the last few segments, or a fish-shell style
//! abbreviation.

use vstd::prelude::*;
use vstd::string::StrSliceExecFns;
use vstd::string::StringExecFns;
use crate::config::{meta_flag, meta_flag_of, meta_get, meta_lookup, WidgetConfig};
use crate::data::SessionData;
use crate::text::{
    basename, basename_of, join_parts, join_with, parse_u64, parse_u64_of, split_char, split_on,
    str_eq, views_of,
};
use crate::widgets::{hidden, hidden_model, shown, shown_model, WidgetModel, WidgetOutput};

verus! {

/// The directory a render pass works from: the workspace's current
/// directory, else the top-level working directory.
pub open spec fn working_dir_of(data: SessionData) -> Option<String> {
    match data.workspace {
        Some(w) => match w.current_dir {
            Some(d) => Some(d),
            None => data.cwd,
        },
        None => data.cwd,
    }
}

/// Pick the working directory out of the session snapshot.
pub fn get_working_dir(data: &SessionData) -> (r: Option<String>)
    ensures
        match r {
            Some(d) => working_dir_of(*data) matches Some(e) && d@ == e@,
            None => working_dir_of(*data) is None,
        },
{
    match &data.workspace {
        Some(w) => match &w.current_dir {
            Some(d) => Some(d.clone()),
            None => match &data.cwd {
                Some(c) => Some(c.clone()),
                None => None,
            },
        },
        None => match &data.cwd {
            Some(c) => Some(c.clone()),
            None => None,
        },
    }
}

/// The view of an optional home directory.
pub open spec fn opt_view(h: Option<String>) -> Option<Seq<char>> {
    match h {
        Some(s) => Some(s@),
        None => None,
    }
}

/// A path with the home-directory prefix abbreviated to `~`: the home
/// itself becomes `~`, a path inside it keeps its remainder.
pub open spec fn abbreviate_home_of(path: Seq<char>, home: Option<Seq<char>>) -> Seq<char> {
    match home {
        None => path,
        Some(h) => if path == h {
            "~"@
        } else if path.len() > h.len() && path.take(h.len() as int) == h && path[h.len() as int]
            == '/' {
            seq!['~'] + path.skip(h.len() as int)
        } else {
            path
        },
    }
}

/// Abbreviate the home-directory prefix of a path to `~`.
pub fn abbreviate_home(path: &str, home: &Option<String>) -> (r: String)
    ensures
        r@ == abbreviate_home_of(path@, opt_view(*home)),
{
    let h = match home {
        Some(h) => h,
        None => { return path.to_owned() },
    };
    let hs = h.as_str();
    if str_eq(path, hs) {
        proof {
            reveal_strlit("~");
        }
        return "~".to_owned();
    }
    let pn = path.unicode_len();
    let hn = hs.unicode_len();
    if pn > hn && str_eq(path.substring_char(0, hn), hs) && path.get_char(hn) == '/' {
        proof {
            reveal_strlit("~");
            assert("~"@ =~= seq!['~']);
        }
        let mut r = "~".to_owned();
        r.append(path.substring_char(hn, pn));
        proof {
            assert(path@.subrange(hn as int, pn as int) =~= path@.skip(hn as int));
        }
        r
    } else {
        path.to_owned()
    }
}

/// One segment of a fish-style path: the last keeps its full text, `~` and
/// empty segments stay, anything else shrinks to its first character.
pub open spec fn fish_segment_of(p: Seq<char>, last: bool) -> Seq<char> {
    if last {
        p
    } else if p == "~"@ {
        p
    } else if p.len() == 0 {
        p
    } else {
        seq![p[0]]
    }
}

/// A path in fish-shell style: home abbreviated, every segment but the last
/// shrunk to its first character.
pub open spec fn fish_style_of(path: Seq<char>, home: Option<Seq<char>>) -> Seq<char> {
    let a = abbreviate_home_of(path, home);
    let parts = split_on(a, '/');
    if parts.len() <= 1 {
        a
    } else {
        join_with(parts.map(|i: int, p: Seq<char>| fish_segment_of(p, i == parts.len() - 1)), "/"@)
    }
}

/// Abbreviate a path fish-shell style.
pub fn fish_style(path: &str, home: &Option<String>) -> (r: String)
    ensures
        r@ == fish_style_of(path@, opt_view(*home)),
{
    let a = abbreviate_home(path, home);
    let parts = split_char(a.as_str(), '/');
    if parts.len() <= 1 {
        return a;
    }
    let ghost ps = split_on(a@, '/');
    let ghost mapped = ps.map(|i: int, p: Seq<char>| fish_segment_of(p, i == ps.len() - 1));
    let mut out: Vec<String> = Vec::new();
    let mut i: usize = 0;
    while i < parts.len()
        invariant
            views_of(parts@) == ps,
            mapped == ps.map(|i: int, p: Seq<char>| fish_segment_of(p, i == ps.len() - 1)),
            parts@.len() == ps.len(),
            i <= parts@.len(),
            views_of(out@) == mapped.take(i as int),
        decreases parts@.len() - i,
    {
        proof {
            assert(parts@[i as int]@ == ps[i as int]);
        }
        let piece: String = if i == parts.len() - 1 {
            parts[i].clone()
        } else if str_eq(parts[i].as_str(), "~") {
            parts[i].clone()
        } else if parts[i].as_str().is_empty() {
            parts[i].clone()
        } else {
            let first = parts[i].as_str().substring_char(0, 1);
            proof {
                assert(first@ =~= seq![ps[i as int][0]]);
            }
            first.to_owned()
        };
        proof {
            assert(piece@ == fish_segment_of(ps[i as int], i == ps.len() - 1));
        }
        let ghost prev_out = out@;
        out.push(piece);
        proof {
            assert(views_of(prev_out).len() == prev_out.len());
            assert(mapped.take(i as int).len() == i);
            assert(prev_out.len() == i);
            assert forall|j: int| 0 <= j < i + 1 implies views_of(out@)[j] == mapped.take(i + 1)[j]
            by {
                if j < i {
                    assert(views_of(prev_out)[j] == mapped.take(i as int)[j]);
                    assert(out@[j] == prev_out[j]);
                } else {
                    assert(views_of(out@)[j] == out@[j]@);
                }
            }
            assert(views_of(out@) =~= mapped.take(i + 1));
        }
        i = i + 1;
    }
    proof {
        assert(mapped.take(ps.len() as int) =~= mapped);
    }
    join_parts(&out, "/")
}

/// The last `n` segments of a home-abbreviated path, the whole path where
/// it has no more than `n`.
pub open spec fn last_n_of(path: Seq<char>, home: Option<Seq<char>>, n: int) -> Seq<char> {
    let a = abbreviate_home_of(path, home);
    let parts = split_on(a, '/');
    if parts.len() <= n {
        a
    } else {
        join_with(parts.skip(parts.len() - n), "/"@)
    }
}

/// Keep only the last `n` segments of a path.
pub fn last_n_segments(path: &str, n: usize, home: &Option<String>) -> (r: String)
    ensures
        r@ == last_n_of(path@, opt_view(*home), n as int),
{
    let a = abbreviate_home(path, home);
    let parts = split_char(a.as_str(), '/');
    if parts.len() <= n {
        return a;
    }
    let ghost ps = split_on(a@, '/');
    let start = parts.len() - n;
    let mut out: Vec<String> = Vec::new();
    let mut i: usize = start;
    proof {
        assert(views_of(out@) =~= ps.skip(start as int).take(0));
    }
    while i < parts.len()
        invariant
            views_of(parts@) == ps,
            parts@.len() == ps.len(),
            start == parts@.len() - n,
            start <= i <= parts@.len(),
            views_of(out@) == ps.skip(start as int).take(i - start),
        decreases parts@.len() - i,
    {
        let piece = parts[i].clone();
        let ghost prev_out = out@;
        out.push(piece);
        proof {
            let tail = ps.skip(start as int);
            assert(views_of(prev_out) == tail.take(i - start));
            assert(views_of(prev_out).len() == prev_out.len());
            assert(tail.take(i - start).len() == i - start);
            assert(prev_out.len() == i - start);
            assert forall|j: int| 0 <= j < i + 1 - start implies views_of(out@)[j] == tail.take(
                i + 1 - start,
            )[j] by {
                if j < i - start {
                    assert(views_of(prev_out)[j] == tail.take(i - start)[j]);
                    assert(out@[j] == prev_out[j]);
                } else {
                    assert(views_of(out@)[j] == out@[j]@);
                    assert(views_of(parts@)[i as int] == ps[i as int]);
                }
            }
            assert(views_of(out@) =~= tail.take(i + 1 - start));
        }
        i = i + 1;
    }
    proof {
        assert(ps.skip(start as int).take(ps.len() - start) =~= ps.skip(start as int));
    }
    join_parts(&out, "/")
}

pub struct CwdWidget;

pub open spec fn cwd_model(
    data: SessionData,
    meta: Seq<(String, String)>,
    home: Option<Seq<char>>,
) -> WidgetModel {
    match working_dir_of(data) {
        None => hidden_model(80),
        Some(dir) => {
            let text = if meta_flag_of(meta, "fish_style"@) {
                fish_style_of(dir@, home)
            } else if meta_flag_of(meta, "full"@) {
                abbreviate_home_of(dir@, home)
            } else {
                match meta_lookup(meta, "segments"@) {
                    Some(nstr) => {
                        let n = match parse_u64_of(nstr) {
                            Some(v) => if v <= usize::MAX {
                                v as int
                            } else {
                                1
                            },
                            None => 1,
                        };
                        last_n_of(dir@, home, n)
                    },
                    None => match basename_of(dir@) {
                        Some(b) => b,
                        None => dir@,
                    },
                }
            };
            shown_model(text, 80)
        },
    }
}

impl CwdWidget {
    pub fn name(&self) -> (r: &'static str)
        ensures
            r@ == "cwd"@,
    {
        "cwd"
    }

    /// Shows the base name by default; the `fish_style` and `full` metadata
    /// flags and the `segments` count select the other forms. Nothing is
    /// shown while no working directory is known.
    pub fn render(&self, data: &SessionData, config: &WidgetConfig, home: &Option<String>) -> (out:
        WidgetOutput)
        ensures
            out.model() == cwd_model(*data, config.metadata@, opt_view(*home)),
    {
        let dir = match get_working_dir(data) {
            Some(d) => d,
            None => { return hidden(80) },
        };
        let text = if meta_flag(&config.metadata, "fish_style") {
            fish_style(dir.as_str(), home)
        } else if meta_flag(&config.metadata, "full") {
            abbreviate_home(dir.as_str(), home)
        } else {
            match meta_get(&config.metadata, "segments") {
                Some(nstr) => {
                    let n: usize = match parse_u64(nstr.as_str()) {
                        Some(v) => if v <= usize::MAX as u64 {
                            v as usize
                        } else {
                            1
                        },
                        None => 1,
                    };
                    last_n_segments(dir.as_str(), n, home)
                },
                None => match basename(dir.as_str()) {
                    Some(b) => b,
                    None => dir.clone(),
                },
            }
        };
        shown(text, 80)
    }
}

} // verus!
