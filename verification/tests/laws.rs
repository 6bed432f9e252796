use std::cell::Cell;

use fmt_tools::render::DebugText;
use fmt_tools::{fmt_debug_list, fmt_debug_set, fmt_display_map, fmt_separated_debug_list};

#[test]
fn test_source_invoked_once_per_render() {
    let calls = Cell::new(0usize);
    let fmt = fmt_debug_list(|| {
        calls.set(calls.get() + 1);
        vec![DebugText::new(String::from("Foo"))]
    });

    assert_eq!(calls.get(), 0);
    assert_eq!(fmt.render_debug(), "[Foo]");
    assert_eq!(calls.get(), 1);
    assert_eq!(fmt.render_display(), "[Foo]");
    assert_eq!(calls.get(), 2);
}

#[test]
fn test_separated_source_invoked_once_per_render() {
    let calls = Cell::new(0usize);
    let fmt = fmt_separated_debug_list(
        || {
            calls.set(calls.get() + 1);
            vec![
                DebugText::new(String::from("Foo")),
                DebugText::new(String::from("Foo")),
            ]
        },
        DebugText::new(String::from("Bar")),
    );

    assert_eq!(fmt.render_debug(), "FooBarFoo");
    assert_eq!(calls.get(), 1);
    assert_eq!(fmt.render_debug(), "FooBarFoo");
    assert_eq!(calls.get(), 2);
}

#[test]
fn test_empty_sources_render_as_empty_shapes() {
    let list = fmt_debug_list(|| Vec::<DebugText>::new());
    assert_eq!(list.render_debug(), "[]");
    assert_eq!(list.render_display(), "[]");

    let set = fmt_debug_set(|| Vec::<DebugText>::new());
    assert_eq!(set.render_debug(), "{}");
    assert_eq!(set.render_display(), "{}");

    let map = fmt_display_map(|| Vec::<(String, u64)>::new());
    assert_eq!(map.render_debug(), "{}");
    assert_eq!(map.render_display(), "{}");

    let separated = fmt_separated_debug_list(
        || Vec::<DebugText>::new(),
        DebugText::new(String::from("Bar")),
    );
    assert_eq!(separated.render_debug(), "");
}
