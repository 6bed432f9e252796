//! Renders a value under either capability based on its "display" rendering.

use vstd::prelude::*;

use crate::render::{DebugRender, DisplayRender};

verus! {

/// Re-exposes a "display"-renderable value under both capabilities; either
/// way it renders exactly as the wrapped value does under "display".
pub struct FmtDisplay<T> {
    /// The wrapped value; never mutated by the adapter.
    pub value: T,
}

impl<T> FmtDisplay<T> {
    fn new(value: T) -> (r: FmtDisplay<T>)
        ensures
            r.value == value,
    {
        FmtDisplay { value }
    }
}

impl<T: DisplayRender> DebugRender for FmtDisplay<T> {
    open spec fn debug_view(&self) -> Seq<char> {
        self.value.display_view()
    }

    fn render_debug(&self) -> (r: String) {
        self.value.render_display()
    }
}

impl<T: DisplayRender> DisplayRender for FmtDisplay<T> {
    open spec fn display_view(&self) -> Seq<char> {
        self.value.display_view()
    }

    fn render_display(&self) -> (r: String) {
        self.value.render_display()
    }
}

/// Creates an adapter that renders `value` under both capabilities based on
/// its "display" rendering.
pub fn fmt_display<T: DisplayRender>(value: T) -> (r: FmtDisplay<T>)
    ensures
        r.value == value,
        r.debug_view() == value.display_view(),
        r.display_view() == value.display_view(),
{
    FmtDisplay::new(value)
}

/// The adapter borrows the opposite capability: under "debug" as well as
/// under "display" it renders exactly the wrapped value's native "display"
/// rendering.
pub proof fn lemma_fmt_display_borrows_capability<T: DisplayRender>(w: FmtDisplay<T>)
    ensures
        w.debug_view() == w.value.display_view(),
        w.display_view() == w.value.display_view(),
{
}

} // verus!
