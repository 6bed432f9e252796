//! Renders the items of an iterable source with a separator interleaved,
//! under both capabilities consistently.

use vstd::prelude::*;

use crate::render::{separated_debug, separated_display, DebugRender, DisplayRender};
use crate::text::{debug_views, display_views, sep_join};

verus! {

/// The shared state of the two separated-list adapters: the separator value
/// and the source callback.
pub struct Inner<F, S> {
    /// The separator value, owned by the adapter.
    pub separator: S,
    /// The source callback; invoked once per render call.
    pub values_fn: F,
}

impl<F, S> Inner<F, S> {
    fn new(values_fn: F, separator: S) -> (r: Inner<F, S>)
        ensures
            r.values_fn == values_fn,
            r.separator == separator,
    {
        Inner { values_fn, separator }
    }
}

impl<F, S: DebugRender, T: DebugRender> Inner<F, S> where F: Fn() -> Vec<T> {
    /// Invokes the source once and joins the items' "debug" renderings with
    /// the separator's "debug" rendering.
    fn render_debug(&self) -> (r: String)
        requires
            call_requires(self.values_fn, ()),
        ensures
            exists|items: Vec<T>|
                #[trigger] call_ensures(self.values_fn, (), items) && r@ == sep_join(
                    debug_views(items@),
                    self.separator.debug_view(),
                ),
    {
        let items = (self.values_fn)();
        let out = separated_debug(&items, &self.separator);
        proof {
            assert(call_ensures(self.values_fn, (), items) && out@ == sep_join(
                debug_views(items@),
                self.separator.debug_view(),
            ));
        }
        out
    }
}

impl<F, S: DisplayRender, T: DisplayRender> Inner<F, S> where F: Fn() -> Vec<T> {
    /// Invokes the source once and joins the items' "display" renderings
    /// with the separator's "display" rendering.
    fn render_display(&self) -> (r: String)
        requires
            call_requires(self.values_fn, ()),
        ensures
            exists|items: Vec<T>|
                #[trigger] call_ensures(self.values_fn, (), items) && r@ == sep_join(
                    display_views(items@),
                    self.separator.display_view(),
                ),
    {
        let items = (self.values_fn)();
        let out = separated_display(&items, &self.separator);
        proof {
            assert(call_ensures(self.values_fn, (), items) && out@ == sep_join(
                display_views(items@),
                self.separator.display_view(),
            ));
        }
        out
    }
}

/// Renders "debug"-renderable items with a "debug"-renderable separator
/// interleaved; both capabilities yield the same text.
pub struct FmtSeparatedDebugList<F, S> {
    /// The separator and the source callback.
    pub inner: Inner<F, S>,
}

impl<F, S> FmtSeparatedDebugList<F, S> {
    fn new(values_fn: F, separator: S) -> (r: FmtSeparatedDebugList<F, S>)
        ensures
            r.inner.values_fn == values_fn,
            r.inner.separator == separator,
    {
        FmtSeparatedDebugList { inner: Inner::new(values_fn, separator) }
    }
}

impl<F, S: DebugRender, T: DebugRender> FmtSeparatedDebugList<F, S> where F: Fn() -> Vec<T> {
    /// Renders under "debug": the items' "debug" renderings joined by the
    /// separator's "debug" rendering, no leading or trailing separator.
    pub fn render_debug(&self) -> (r: String)
        requires
            call_requires(self.inner.values_fn, ()),
        ensures
            exists|items: Vec<T>|
                #[trigger] call_ensures(self.inner.values_fn, (), items) && r@ == sep_join(
                    debug_views(items@),
                    self.inner.separator.debug_view(),
                ),
    {
        self.inner.render_debug()
    }

    /// Renders under "display": exactly the same text as under "debug".
    pub fn render_display(&self) -> (r: String)
        requires
            call_requires(self.inner.values_fn, ()),
        ensures
            exists|items: Vec<T>|
                #[trigger] call_ensures(self.inner.values_fn, (), items) && r@ == sep_join(
                    debug_views(items@),
                    self.inner.separator.debug_view(),
                ),
    {
        self.inner.render_debug()
    }
}

/// Renders "display"-renderable items with a "display"-renderable separator
/// interleaved; both capabilities yield the same text.
pub struct FmtSeparatedDisplayList<F, S> {
    /// The separator and the source callback.
    pub inner: Inner<F, S>,
}

impl<F, S> FmtSeparatedDisplayList<F, S> {
    fn new(values_fn: F, separator: S) -> (r: FmtSeparatedDisplayList<F, S>)
        ensures
            r.inner.values_fn == values_fn,
            r.inner.separator == separator,
    {
        FmtSeparatedDisplayList { inner: Inner::new(values_fn, separator) }
    }
}

impl<F, S: DisplayRender, T: DisplayRender> FmtSeparatedDisplayList<F, S> where
    F: Fn() -> Vec<T>,
 {
    /// Renders under "debug": the items' "display" renderings joined by the
    /// separator's "display" rendering, no leading or trailing separator.
    pub fn render_debug(&self) -> (r: String)
        requires
            call_requires(self.inner.values_fn, ()),
        ensures
            exists|items: Vec<T>|
                #[trigger] call_ensures(self.inner.values_fn, (), items) && r@ == sep_join(
                    display_views(items@),
                    self.inner.separator.display_view(),
                ),
    {
        self.inner.render_display()
    }

    /// Renders under "display": exactly the same text as under "debug".
    pub fn render_display(&self) -> (r: String)
        requires
            call_requires(self.inner.values_fn, ()),
        ensures
            exists|items: Vec<T>|
                #[trigger] call_ensures(self.inner.values_fn, (), items) && r@ == sep_join(
                    display_views(items@),
                    self.inner.separator.display_view(),
                ),
    {
        self.inner.render_display()
    }
}

/// Creates an object that renders the "debug"-renderable items produced by
/// `values_fn` with the "debug"-renderable `separator` interleaved.
pub fn fmt_separated_debug_list<F, S: DebugRender, T: DebugRender>(
    values_fn: F,
    separator: S,
) -> (r: FmtSeparatedDebugList<F, S>) where F: Fn() -> Vec<T>
    ensures
        r.inner.values_fn == values_fn,
        r.inner.separator == separator,
{
    FmtSeparatedDebugList::new(values_fn, separator)
}

/// Creates an object that renders the "display"-renderable items produced by
/// `values_fn` with the "display"-renderable `separator` interleaved.
pub fn fmt_separated_display_list<F, S: DisplayRender, T: DisplayRender>(
    values_fn: F,
    separator: S,
) -> (r: FmtSeparatedDisplayList<F, S>) where F: Fn() -> Vec<T>
    ensures
        r.inner.values_fn == values_fn,
        r.inner.separator == separator,
{
    FmtSeparatedDisplayList::new(values_fn, separator)
}

} // verus!
