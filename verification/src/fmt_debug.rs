//! Renders a value under either capability based on its "debug" rendering.

use vstd::prelude::*;

use crate::render::{DebugRender, DisplayRender};

verus! {

/// Re-exposes a "debug"-renderable value under both capabilities; either way
/// it renders exactly as the wrapped value does under "debug".
pub struct FmtDebug<T> {
    /// The wrapped value; never mutated by the adapter.
    pub value: T,
}

impl<T> FmtDebug<T> {
    fn new(value: T) -> (r: FmtDebug<T>)
        ensures
            r.value == value,
    {
        FmtDebug { value }
    }
}

impl<T: DebugRender> DebugRender for FmtDebug<T> {
    open spec fn debug_view(&self) -> Seq<char> {
        self.value.debug_view()
    }

    fn render_debug(&self) -> (r: String) {
        self.value.render_debug()
    }
}

impl<T: DebugRender> DisplayRender for FmtDebug<T> {
    open spec fn display_view(&self) -> Seq<char> {
        self.value.debug_view()
    }

    fn render_display(&self) -> (r: String) {
        self.value.render_debug()
    }
}

/// Creates an adapter that renders `value` under both capabilities based on
/// its "debug" rendering.
pub fn fmt_debug<T: DebugRender>(value: T) -> (r: FmtDebug<T>)
    ensures
        r.value == value,
        r.debug_view() == value.debug_view(),
        r.display_view() == value.debug_view(),
{
    FmtDebug::new(value)
}

/// The adapter borrows the opposite capability: under "display" as well as
/// under "debug" it renders exactly the wrapped value's native "debug"
/// rendering.
pub proof fn lemma_fmt_debug_borrows_capability<T: DebugRender>(w: FmtDebug<T>)
    ensures
        w.display_view() == w.value.debug_view(),
        w.debug_view() == w.value.debug_view(),
{
}

} // verus!
