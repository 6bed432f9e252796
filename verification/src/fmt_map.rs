//! Renders the key-value pairs of an iterable source as a map `{k: v, ...}`.
//!
//! The entries keep the source's order; keys are not de-duplicated.

use vstd::prelude::*;
use vstd::string::StringExecFns;

use crate::render::{join_debug_entries, join_display_entries, DebugRender, DisplayRender};
use crate::text::{debug_entry_views, display_entry_views, lemma_map_view_empty, map_view};

verus! {

/// Renders the given key-value pairs as a map: each entry as
/// `key: value` under "debug", the entries comma-separated between `{` and
/// `}`.
pub fn render_debug_map<K: DebugRender, V: DebugRender>(entries: &Vec<(K, V)>) -> (r: String)
    ensures
        r@ == map_view(debug_entry_views(entries@)),
        entries@.len() == 0 ==> r@ == "{}"@,
{
    let body = join_debug_entries(entries, ", ");
    let mut out = String::from_str("{");
    out.append(body.as_str());
    out.append("}");
    proof {
        assert(out@ =~= map_view(debug_entry_views(entries@)));
        if entries@.len() == 0 {
            assert(debug_entry_views(entries@) =~= Seq::<(Seq<char>, Seq<char>)>::empty());
            lemma_map_view_empty();
        }
    }
    out
}

/// Renders the given key-value pairs as a map: each entry as
/// `key: value` under "display", the entries comma-separated between `{` and
/// `}`.
pub fn render_display_map<K: DisplayRender, V: DisplayRender>(entries: &Vec<(K, V)>) -> (r:
    String)
    ensures
        r@ == map_view(display_entry_views(entries@)),
        entries@.len() == 0 ==> r@ == "{}"@,
{
    let body = join_display_entries(entries, ", ");
    let mut out = String::from_str("{");
    out.append(body.as_str());
    out.append("}");
    proof {
        assert(out@ =~= map_view(display_entry_views(entries@)));
        if entries@.len() == 0 {
            assert(display_entry_views(entries@) =~= Seq::<(Seq<char>, Seq<char>)>::empty());
            lemma_map_view_empty();
        }
    }
    out
}

/// Renders the "debug"-renderable key-value pairs produced by a source
/// callback as a map. Each render call re-invokes the source once.
pub struct FmtDebugMap<F> {
    /// The source callback; invoked once per render call.
    pub values_fn: F,
}

impl<F> FmtDebugMap<F> {
    fn new(values_fn: F) -> (r: FmtDebugMap<F>)
        ensures
            r.values_fn == values_fn,
    {
        FmtDebugMap { values_fn }
    }
}

impl<F, K: DebugRender, V: DebugRender> FmtDebugMap<F> where F: Fn() -> Vec<(K, V)> {
    /// Renders under "debug": invokes the source once and renders the pairs
    /// it produced as a map.
    pub fn render_debug(&self) -> (r: String)
        requires
            call_requires(self.values_fn, ()),
        ensures
            exists|entries: Vec<(K, V)>|
                #[trigger] call_ensures(self.values_fn, (), entries) && r@ == map_view(
                    debug_entry_views(entries@),
                ),
    {
        let entries = (self.values_fn)();
        let out = render_debug_map(&entries);
        proof {
            assert(call_ensures(self.values_fn, (), entries) && out@ == map_view(
                debug_entry_views(entries@),
            ));
        }
        out
    }

    /// Renders under "display": exactly the same map text as under "debug".
    pub fn render_display(&self) -> (r: String)
        requires
            call_requires(self.values_fn, ()),
        ensures
            exists|entries: Vec<(K, V)>|
                #[trigger] call_ensures(self.values_fn, (), entries) && r@ == map_view(
                    debug_entry_views(entries@),
                ),
    {
        self.render_debug()
    }
}

/// Renders the "display"-renderable key-value pairs produced by a source
/// callback as a map. Each render call re-invokes the source once.
pub struct FmtDisplayMap<F> {
    /// The source callback; invoked once per render call.
    pub values_fn: F,
}

impl<F> FmtDisplayMap<F> {
    fn new(values_fn: F) -> (r: FmtDisplayMap<F>)
        ensures
            r.values_fn == values_fn,
    {
        FmtDisplayMap { values_fn }
    }
}

impl<F, K: DisplayRender, V: DisplayRender> FmtDisplayMap<F> where F: Fn() -> Vec<(K, V)> {
    /// Renders under "debug": invokes the source once and renders the pairs
    /// it produced as a map of their "display" renderings.
    pub fn render_debug(&self) -> (r: String)
        requires
            call_requires(self.values_fn, ()),
        ensures
            exists|entries: Vec<(K, V)>|
                #[trigger] call_ensures(self.values_fn, (), entries) && r@ == map_view(
                    display_entry_views(entries@),
                ),
    {
        let entries = (self.values_fn)();
        let out = render_display_map(&entries);
        proof {
            assert(call_ensures(self.values_fn, (), entries) && out@ == map_view(
                display_entry_views(entries@),
            ));
        }
        out
    }

    /// Renders under "display": exactly the same map text as under "debug".
    pub fn render_display(&self) -> (r: String)
        requires
            call_requires(self.values_fn, ()),
        ensures
            exists|entries: Vec<(K, V)>|
                #[trigger] call_ensures(self.values_fn, (), entries) && r@ == map_view(
                    display_entry_views(entries@),
                ),
    {
        self.render_debug()
    }
}

/// Creates an object that renders the "debug"-renderable key-value pairs
/// produced by `values_fn` as a map.
pub fn fmt_debug_map<F, K: DebugRender, V: DebugRender>(values_fn: F) -> (r: FmtDebugMap<
    F,
>) where F: Fn() -> Vec<(K, V)>
    ensures
        r.values_fn == values_fn,
{
    FmtDebugMap::new(values_fn)
}

/// Creates an object that renders the "display"-renderable key-value pairs
/// produced by `values_fn` as a map.
pub fn fmt_display_map<F, K: DisplayRender, V: DisplayRender>(values_fn: F) -> (r: FmtDisplayMap<
    F,
>) where F: Fn() -> Vec<(K, V)>
    ensures
        r.values_fn == values_fn,
{
    FmtDisplayMap::new(values_fn)
}

} // verus!
