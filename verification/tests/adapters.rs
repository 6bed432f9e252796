use fmt_tools::render::{DebugRender, DebugText, DisplayRender, DisplayText};
use fmt_tools::{fmt_debug, fmt_display, fmt_fn};

#[test]
fn test_fmt_debug() {
    let fmt = fmt_debug(DebugText::new(String::from("Foo")));
    let borrowed_fmt = &fmt;

    assert_eq!(fmt.render_debug(), "Foo");
    assert_eq!(fmt.render_display(), "Foo");
    assert_eq!(borrowed_fmt.render_debug(), "Foo");
    assert_eq!(borrowed_fmt.render_display(), "Foo");
}

#[test]
fn test_fmt_display() {
    let fmt = fmt_display(DisplayText::new(String::from("foo")));
    let borrowed_fmt = &fmt;

    assert_eq!(fmt.render_debug(), "foo");
    assert_eq!(fmt.render_display(), "foo");
    assert_eq!(borrowed_fmt.render_debug(), "foo");
    assert_eq!(borrowed_fmt.render_display(), "foo");
}

#[test]
fn test_fmt_fn() {
    let fmt = fmt_fn(|| String::from("foo"));

    assert_eq!(fmt.render_debug(), "foo");
    assert_eq!(fmt.render_display(), "foo");
}

#[test]
fn test_coerce_unsized() {
    let fmt = &fmt_fn(|| String::from("foo"));

    assert_eq!(fmt.render_debug(), "foo");
    assert_eq!(fmt.render_display(), "foo");
}

#[test]
fn test_opposite_capability_matches_native() {
    // A char renders differently under its two native capabilities; each
    // adapter re-exposes the chosen one unchanged under the other.
    assert_eq!('a'.render_debug(), "'a'");
    assert_eq!('a'.render_display(), "a");
    let as_debug = fmt_debug('a');
    assert_eq!(as_debug.render_display(), "'a'");
    assert_eq!(as_debug.render_debug(), "'a'");
    let as_display = fmt_display('a');
    assert_eq!(as_display.render_debug(), "a");
    assert_eq!(as_display.render_display(), "a");
}

#[test]
fn test_number_rendering() {
    assert_eq!(0u64.render_debug(), "0");
    assert_eq!(7u64.render_display(), "7");
    assert_eq!(10u64.render_debug(), "10");
    assert_eq!(12345u64.render_display(), "12345");
    assert_eq!(u64::MAX.render_debug(), "18446744073709551615");
}

#[test]
fn test_string_rendering() {
    let s = String::from("foo");
    assert_eq!(s.render_display(), "foo");
    assert_eq!(s.render_debug(), "\"foo\"");
}
