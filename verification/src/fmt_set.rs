//! Renders the items of an iterable source bracketed as a set `{...}`.
//!
//! "Set" names the bracket style only: the items keep the source's order and
//! are neither de-duplicated nor sorted.

use vstd::prelude::*;
use vstd::string::StringExecFns;

use crate::render::{join_debug, join_display, DebugRender, DisplayRender};
use crate::text::{debug_views, display_views, lemma_set_view_empty, set_view};

verus! {

/// Renders the given items as a set: their "debug" renderings
/// comma-separated between `{` and `}`.
pub fn render_debug_set<T: DebugRender>(items: &Vec<T>) -> (r: String)
    ensures
        r@ == set_view(debug_views(items@)),
        items@.len() == 0 ==> r@ == "{}"@,
{
    let body = join_debug(items, ", ");
    let mut out = String::from_str("{");
    out.append(body.as_str());
    out.append("}");
    proof {
        assert(out@ =~= set_view(debug_views(items@)));
        if items@.len() == 0 {
            assert(debug_views(items@) =~= Seq::<Seq<char>>::empty());
            lemma_set_view_empty();
        }
    }
    out
}

/// Renders the given items as a set: their "display" renderings
/// comma-separated between `{` and `}`.
pub fn render_display_set<T: DisplayRender>(items: &Vec<T>) -> (r: String)
    ensures
        r@ == set_view(display_views(items@)),
        items@.len() == 0 ==> r@ == "{}"@,
{
    let body = join_display(items, ", ");
    let mut out = String::from_str("{");
    out.append(body.as_str());
    out.append("}");
    proof {
        assert(out@ =~= set_view(display_views(items@)));
        if items@.len() == 0 {
            assert(display_views(items@) =~= Seq::<Seq<char>>::empty());
            lemma_set_view_empty();
        }
    }
    out
}

/// Renders a set of "debug"-renderable items produced by a source callback.
/// Each render call re-invokes the source once; nothing is cached.
pub struct FmtDebugSet<F> {
    /// The source callback; invoked once per render call.
    pub values_fn: F,
}

impl<F> FmtDebugSet<F> {
    fn new(values_fn: F) -> (r: FmtDebugSet<F>)
        ensures
            r.values_fn == values_fn,
    {
        FmtDebugSet { values_fn }
    }
}

impl<F, T: DebugRender> FmtDebugSet<F> where F: Fn() -> Vec<T> {
    /// Renders under "debug": invokes the source once and renders the items
    /// it produced as a set.
    pub fn render_debug(&self) -> (r: String)
        requires
            call_requires(self.values_fn, ()),
        ensures
            exists|items: Vec<T>|
                #[trigger] call_ensures(self.values_fn, (), items) && r@ == set_view(
                    debug_views(items@),
                ),
    {
        let items = (self.values_fn)();
        let out = render_debug_set(&items);
        proof {
            assert(call_ensures(self.values_fn, (), items) && out@ == set_view(
                debug_views(items@),
            ));
        }
        out
    }

    /// Renders under "display": exactly the same set text as under "debug".
    pub fn render_display(&self) -> (r: String)
        requires
            call_requires(self.values_fn, ()),
        ensures
            exists|items: Vec<T>|
                #[trigger] call_ensures(self.values_fn, (), items) && r@ == set_view(
                    debug_views(items@),
                ),
    {
        self.render_debug()
    }
}

/// Renders a set of "display"-renderable items produced by a source
/// callback. Each render call re-invokes the source once; nothing is cached.
pub struct FmtDisplaySet<F> {
    /// The source callback; invoked once per render call.
    pub values_fn: F,
}

impl<F> FmtDisplaySet<F> {
    fn new(values_fn: F) -> (r: FmtDisplaySet<F>)
        ensures
            r.values_fn == values_fn,
    {
        FmtDisplaySet { values_fn }
    }
}

impl<F, T: DisplayRender> FmtDisplaySet<F> where F: Fn() -> Vec<T> {
    /// Renders under "debug": invokes the source once and renders the items
    /// it produced as a set of their "display" renderings.
    pub fn render_debug(&self) -> (r: String)
        requires
            call_requires(self.values_fn, ()),
        ensures
            exists|items: Vec<T>|
                #[trigger] call_ensures(self.values_fn, (), items) && r@ == set_view(
                    display_views(items@),
                ),
    {
        let items = (self.values_fn)();
        let out = render_display_set(&items);
        proof {
            assert(call_ensures(self.values_fn, (), items) && out@ == set_view(
                display_views(items@),
            ));
        }
        out
    }

    /// Renders under "display": exactly the same set text as under "debug".
    pub fn render_display(&self) -> (r: String)
        requires
            call_requires(self.values_fn, ()),
        ensures
            exists|items: Vec<T>|
                #[trigger] call_ensures(self.values_fn, (), items) && r@ == set_view(
                    display_views(items@),
                ),
    {
        self.render_debug()
    }
}

/// Creates an object that renders the "debug"-renderable items produced by
/// `values_fn` as a set.
pub fn fmt_debug_set<F, T: DebugRender>(values_fn: F) -> (r: FmtDebugSet<F>) where
    F: Fn() -> Vec<T>
    ensures
        r.values_fn == values_fn,
{
    FmtDebugSet::new(values_fn)
}

/// Creates an object that renders the "display"-renderable items produced by
/// `values_fn` as a set.
pub fn fmt_display_set<F, T: DisplayRender>(values_fn: F) -> (r: FmtDisplaySet<F>) where
    F: Fn() -> Vec<T>
    ensures
        r.values_fn == values_fn,
{
    FmtDisplaySet::new(values_fn)
}

} // verus!
