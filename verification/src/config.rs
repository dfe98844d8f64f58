//! Layout configuration: ordered lines of widget placements, global
//! separator, padding, bold and flex-mode settings, and the per-widget
//! configuration payload with its open metadata mapping.

use vstd::prelude::*;
use crate::text::str_eq;

verus! {

/// Per-widget-instance configuration: the terse/labeled selector and an open
/// string-keyed metadata mapping. Unknown keys are ignored by widgets that
/// do not recognize them; missing keys fall back to documented defaults.
#[derive(Clone, Debug)]
pub struct WidgetConfig {
    pub raw_value: bool,
    pub metadata: Vec<(String, String)>,
}

/// One widget's placement entry within a configured line.
#[derive(Clone, Debug)]
pub struct LineWidgetConfig {
    pub widget_type: String,
    pub padding: Option<String>,
    pub color: Option<String>,
    pub background_color: Option<String>,
    pub bold: Option<bool>,
    pub merge_next: bool,
    pub raw_value: bool,
    pub metadata: Vec<(String, String)>,
}

/// The overall configuration for one render pass.
#[derive(Clone, Debug)]
pub struct Config {
    pub lines: Vec<Vec<LineWidgetConfig>>,
    pub default_separator: String,
    pub default_padding: String,
    pub global_bold: bool,
    pub flex_mode: String,
}

/// Copy a metadata mapping entry by entry.
pub fn clone_metadata(m: &Vec<(String, String)>) -> (r: Vec<(String, String)>)
    ensures
        r@ == m@,
{
    let mut r: Vec<(String, String)> = Vec::new();
    let mut i: usize = 0;
    while i < m.len()
        invariant
            i <= m@.len(),
            r@ == m@.take(i as int),
        decreases m@.len() - i,
    {
        r.push((m[i].0.clone(), m[i].1.clone()));
        proof {
            assert(r@ =~= m@.take(i + 1));
        }
        i = i + 1;
    }
    proof {
        assert(m@.take(m@.len() as int) =~= m@);
    }
    r
}

impl Config {
    /// Extract the widget-configuration payload from a placement entry.
    pub fn to_widget_config(wc: &LineWidgetConfig) -> (r: WidgetConfig)
        ensures
            r.raw_value == wc.raw_value,
            r.metadata@ == wc.metadata@,
    {
        WidgetConfig { raw_value: wc.raw_value, metadata: clone_metadata(&wc.metadata) }
    }
}

/// The first value stored under `key`, if any.
pub open spec fn meta_lookup(m: Seq<(String, String)>, key: Seq<char>) -> Option<Seq<char>>
    decreases m.len(),
{
    if m.len() == 0 {
        None
    } else if m[0].0@ == key {
        Some(m[0].1@)
    } else {
        meta_lookup(m.drop_first(), key)
    }
}

/// Look up a metadata key, yielding the first value stored under it.
pub fn meta_get(m: &Vec<(String, String)>, key: &str) -> (r: Option<String>)
    ensures
        match r {
            Some(v) => meta_lookup(m@, key@) == Some(v@),
            None => meta_lookup(m@, key@) is None,
        },
{
    let mut i: usize = 0;
    proof {
        assert(m@.skip(0) =~= m@);
    }
    while i < m.len()
        invariant
            i <= m@.len(),
            meta_lookup(m@, key@) == meta_lookup(m@.skip(i as int), key@),
        decreases m@.len() - i,
    {
        proof {
            assert(m@.skip(i as int)[0] == m@[i as int]);
            assert(m@.skip(i as int).drop_first() =~= m@.skip(i + 1));
        }
        if str_eq(m[i].0.as_str(), key) {
            return Some(m[i].1.clone());
        }
        i = i + 1;
    }
    None
}

/// Whether the value stored under `key` is the string `true`.
pub open spec fn meta_flag_of(m: Seq<(String, String)>, key: Seq<char>) -> bool {
    meta_lookup(m, key) == Some("true"@)
}

/// Whether a metadata key is set to the string `true`.
pub fn meta_flag(m: &Vec<(String, String)>, key: &str) -> (r: bool)
    ensures
        r == meta_flag_of(m@, key@),
{
    match meta_get(m, key) {
        Some(v) => str_eq(v.as_str(), "true"),
        None => false,
    }
}

} // verus!
