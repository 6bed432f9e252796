//! Renders under both capabilities based on a wrapped rendering callback.

use vstd::prelude::*;

verus! {

/// Re-exposes a zero-argument rendering callback as a renderable object:
/// rendering under either capability invokes the callback once and returns
/// its text.
pub struct FmtFn<F> {
    /// The wrapped callback; invoked once per render call, never cached.
    pub values_fn: F,
}

impl<F> FmtFn<F> {
    fn new(values_fn: F) -> (r: FmtFn<F>)
        ensures
            r.values_fn == values_fn,
    {
        FmtFn { values_fn }
    }
}

impl<F: Fn() -> String> FmtFn<F> {
    /// Renders under the "debug" capability by invoking the callback once.
    pub fn render_debug(&self) -> (r: String)
        requires
            call_requires(self.values_fn, ()),
        ensures
            call_ensures(self.values_fn, (), r),
    {
        (self.values_fn)()
    }

    /// Renders under the "display" capability by invoking the callback once.
    pub fn render_display(&self) -> (r: String)
        requires
            call_requires(self.values_fn, ()),
        ensures
            call_ensures(self.values_fn, (), r),
    {
        (self.values_fn)()
    }
}

/// Creates an object that renders under both capabilities by invoking the
/// provided callback.
pub fn fmt_fn<F: Fn() -> String>(values_fn: F) -> (r: FmtFn<F>)
    ensures
        r.values_fn == values_fn,
{
    FmtFn::new(values_fn)
}

} // verus!
