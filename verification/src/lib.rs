//! Adapters that render in-memory values as text under two capabilities,
//! "debug" and "display".
//!
//! A wrapped value, closure, or iterable source is re-exposed as a renderable
//! object: value adapters borrow the opposite capability, collection adapters
//! render their items bracketed as a list `[...]`, a set `{...}`, or a map
//! `{k: v, ...}`, and separated-list adapters interleave a separator between
//! items with no leading or trailing separator. An owned-format-arguments
//! builder captures interpolation arguments by value and defers placeholder
//! substitution until the object is rendered.
//!
//! Every renderer returns a `String` whose character sequence is pinned down
//! by its contract, stated over the spec-level views in [`text`] and the
//! capability traits in [`render`].

pub mod fmt_debug;
pub mod fmt_display;
pub mod fmt_fn;
pub mod fmt_list;
pub mod fmt_map;
pub mod format_args_owned;
pub mod fmt_separated_list;
pub mod fmt_set;
pub mod render;
pub mod separated_list;
pub mod text;

pub use crate::fmt_debug::{fmt_debug, FmtDebug};
pub use crate::fmt_display::{fmt_display, FmtDisplay};
pub use crate::fmt_fn::{fmt_fn, FmtFn};
pub use crate::fmt_list::{fmt_debug_list, fmt_display_list, FmtDebugList, FmtDisplayList};
pub use crate::fmt_map::{fmt_debug_map, fmt_display_map, FmtDebugMap, FmtDisplayMap};
pub use crate::fmt_separated_list::{
    fmt_separated_debug_list, fmt_separated_display_list, FmtSeparatedDebugList,
    FmtSeparatedDisplayList,
};
pub use crate::fmt_set::{fmt_debug_set, fmt_display_set, FmtDebugSet, FmtDisplaySet};
pub use crate::format_args_owned::{format_args_owned, ArgValue, FormatArgsOwned};
pub use crate::render::{DebugRender, DebugText, DisplayRender, DisplayText};
pub use crate::separated_list::{
    debug_separated_list, display_separated_list, separated_list, SeparatedList,
};
