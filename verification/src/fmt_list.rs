//! Renders the items of an iterable source bracketed as a list `[...]`.

use vstd::prelude::*;
use vstd::string::StringExecFns;

use crate::render::{join_debug, join_display, DebugRender, DisplayRender};
use crate::text::{debug_views, display_views, lemma_list_view_empty, list_view};

verus! {

/// Renders the given items as a list: their "debug" renderings
/// comma-separated between `[` and `]`.
pub fn render_debug_list<T: DebugRender>(items: &Vec<T>) -> (r: String)
    ensures
        r@ == list_view(debug_views(items@)),
        items@.len() == 0 ==> r@ == "[]"@,
{
    let body = join_debug(items, ", ");
    let mut out = String::from_str("[");
    out.append(body.as_str());
    out.append("]");
    proof {
        assert(out@ =~= list_view(debug_views(items@)));
        if items@.len() == 0 {
            assert(debug_views(items@) =~= Seq::<Seq<char>>::empty());
            lemma_list_view_empty();
        }
    }
    out
}

/// Renders the given items as a list: their "display" renderings
/// comma-separated between `[` and `]`.
pub fn render_display_list<T: DisplayRender>(items: &Vec<T>) -> (r: String)
    ensures
        r@ == list_view(display_views(items@)),
        items@.len() == 0 ==> r@ == "[]"@,
{
    let body = join_display(items, ", ");
    let mut out = String::from_str("[");
    out.append(body.as_str());
    out.append("]");
    proof {
        assert(out@ =~= list_view(display_views(items@)));
        if items@.len() == 0 {
            assert(display_views(items@) =~= Seq::<Seq<char>>::empty());
            lemma_list_view_empty();
        }
    }
    out
}

/// Renders a list of "debug"-renderable items produced by a source callback.
/// Each render call re-invokes the source once; nothing is cached.
pub struct FmtDebugList<F> {
    /// The source callback; invoked once per render call.
    pub values_fn: F,
}

impl<F> FmtDebugList<F> {
    fn new(values_fn: F) -> (r: FmtDebugList<F>)
        ensures
            r.values_fn == values_fn,
    {
        FmtDebugList { values_fn }
    }
}

impl<F, T: DebugRender> FmtDebugList<F> where F: Fn() -> Vec<T> {
    /// Renders under "debug": invokes the source once and renders the items
    /// it produced as a list.
    pub fn render_debug(&self) -> (r: String)
        requires
            call_requires(self.values_fn, ()),
        ensures
            exists|items: Vec<T>|
                #[trigger] call_ensures(self.values_fn, (), items) && r@ == list_view(
                    debug_views(items@),
                ),
    {
        let items = (self.values_fn)();
        let out = render_debug_list(&items);
        proof {
            assert(call_ensures(self.values_fn, (), items) && out@ == list_view(
                debug_views(items@),
            ));
        }
        out
    }

    /// Renders under "display": exactly the same list text as under "debug".
    pub fn render_display(&self) -> (r: String)
        requires
            call_requires(self.values_fn, ()),
        ensures
            exists|items: Vec<T>|
                #[trigger] call_ensures(self.values_fn, (), items) && r@ == list_view(
                    debug_views(items@),
                ),
    {
        self.render_debug()
    }
}

/// Renders a list of "display"-renderable items produced by a source
/// callback. Each render call re-invokes the source once; nothing is cached.
pub struct FmtDisplayList<F> {
    /// The source callback; invoked once per render call.
    pub values_fn: F,
}

impl<F> FmtDisplayList<F> {
    fn new(values_fn: F) -> (r: FmtDisplayList<F>)
        ensures
            r.values_fn == values_fn,
    {
        FmtDisplayList { values_fn }
    }
}

impl<F, T: DisplayRender> FmtDisplayList<F> where F: Fn() -> Vec<T> {
    /// Renders under "debug": invokes the source once and renders the items
    /// it produced as a list of their "display" renderings.
    pub fn render_debug(&self) -> (r: String)
        requires
            call_requires(self.values_fn, ()),
        ensures
            exists|items: Vec<T>|
                #[trigger] call_ensures(self.values_fn, (), items) && r@ == list_view(
                    display_views(items@),
                ),
    {
        let items = (self.values_fn)();
        let out = render_display_list(&items);
        proof {
            assert(call_ensures(self.values_fn, (), items) && out@ == list_view(
                display_views(items@),
            ));
        }
        out
    }

    /// Renders under "display": exactly the same list text as under "debug".
    pub fn render_display(&self) -> (r: String)
        requires
            call_requires(self.values_fn, ()),
        ensures
            exists|items: Vec<T>|
                #[trigger] call_ensures(self.values_fn, (), items) && r@ == list_view(
                    display_views(items@),
                ),
    {
        self.render_debug()
    }
}

/// Creates an object that renders the "debug"-renderable items produced by
/// `values_fn` as a list.
pub fn fmt_debug_list<F, T: DebugRender>(values_fn: F) -> (r: FmtDebugList<F>) where
    F: Fn() -> Vec<T>
    ensures
        r.values_fn == values_fn,
{
    FmtDebugList::new(values_fn)
}

/// Creates an object that renders the "display"-renderable items produced by
/// `values_fn` as a list.
pub fn fmt_display_list<F, T: DisplayRender>(values_fn: F) -> (r: FmtDisplayList<F>) where
    F: Fn() -> Vec<T>
    ensures
        r.values_fn == values_fn,
{
    FmtDisplayList::new(values_fn)
}

} // verus!
