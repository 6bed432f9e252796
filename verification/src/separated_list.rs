//! Renders the items of an iterable source with a separator interleaved.

use vstd::prelude::*;

use crate::render::{separated_debug, separated_display, DebugRender, DisplayRender};
use crate::text::{debug_views, display_views, sep_join};

verus! {

/// Renders the items produced by a source callback with a separator value
/// re-rendered before every item after the first: no leading and no trailing
/// separator. Each render call re-invokes the source once.
pub struct SeparatedList<F, S> {
    /// The separator value, owned by the adapter.
    pub separator: S,
    /// The source callback; invoked once per render call.
    pub values_fn: F,
}

impl<F, S> SeparatedList<F, S> {
    fn new(values_fn: F, separator: S) -> (r: SeparatedList<F, S>)
        ensures
            r.values_fn == values_fn,
            r.separator == separator,
    {
        SeparatedList { values_fn, separator }
    }
}

impl<F, S: DebugRender, T: DebugRender> SeparatedList<F, S> where F: Fn() -> Vec<T> {
    /// Renders under "debug": invokes the source once and joins the items'
    /// "debug" renderings with the separator's "debug" rendering.
    pub fn render_debug(&self) -> (r: String)
        requires
            call_requires(self.values_fn, ()),
        ensures
            exists|items: Vec<T>|
                #[trigger] call_ensures(self.values_fn, (), items) && r@ == sep_join(
                    debug_views(items@),
                    self.separator.debug_view(),
                ),
    {
        let items = (self.values_fn)();
        let out = separated_debug(&items, &self.separator);
        proof {
            assert(call_ensures(self.values_fn, (), items) && out@ == sep_join(
                debug_views(items@),
                self.separator.debug_view(),
            ));
        }
        out
    }
}

impl<F, S: DisplayRender, T: DisplayRender> SeparatedList<F, S> where F: Fn() -> Vec<T> {
    /// Renders under "display": invokes the source once and joins the items'
    /// "display" renderings with the separator's "display" rendering.
    pub fn render_display(&self) -> (r: String)
        requires
            call_requires(self.values_fn, ()),
        ensures
            exists|items: Vec<T>|
                #[trigger] call_ensures(self.values_fn, (), items) && r@ == sep_join(
                    display_views(items@),
                    self.separator.display_view(),
                ),
    {
        let items = (self.values_fn)();
        let out = separated_display(&items, &self.separator);
        proof {
            assert(call_ensures(self.values_fn, (), items) && out@ == sep_join(
                display_views(items@),
                self.separator.display_view(),
            ));
        }
        out
    }
}

/// Creates an object that renders the items produced by `values_fn` with
/// `separator` interleaved, under whichever capability both support.
pub fn separated_list<F, S, T>(values_fn: F, separator: S) -> (r: SeparatedList<F, S>) where
    F: Fn() -> Vec<T>
    ensures
        r.values_fn == values_fn,
        r.separator == separator,
{
    SeparatedList::new(values_fn, separator)
}

/// Creates an object that renders the "debug"-renderable items produced by
/// `values_fn` with the "debug"-renderable `separator` interleaved.
pub fn debug_separated_list<F, S: DebugRender, T: DebugRender>(values_fn: F, separator: S) -> (r:
    SeparatedList<F, S>) where F: Fn() -> Vec<T>
    ensures
        r.values_fn == values_fn,
        r.separator == separator,
{
    separated_list(values_fn, separator)
}

/// Creates an object that renders the "display"-renderable items produced by
/// `values_fn` with the "display"-renderable `separator` interleaved.
pub fn display_separated_list<F, S: DisplayRender, T: DisplayRender>(
    values_fn: F,
    separator: S,
) -> (r: SeparatedList<F, S>) where F: Fn() -> Vec<T>
    ensures
        r.values_fn == values_fn,
        r.separator == separator,
{
    separated_list(values_fn, separator)
}

} // verus!
