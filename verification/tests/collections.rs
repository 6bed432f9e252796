use fmt_tools::render::{DebugText, DisplayText};
use fmt_tools::{fmt_debug_list, fmt_debug_map, fmt_debug_set};
use fmt_tools::{fmt_display_list, fmt_display_map, fmt_display_set};

fn debug_items(n: usize, text: &str) -> Vec<DebugText> {
    let mut items = Vec::new();
    for _ in 0..n {
        items.push(DebugText::new(String::from(text)));
    }
    items
}

fn display_items(n: usize, text: &str) -> Vec<DisplayText> {
    let mut items = Vec::new();
    for _ in 0..n {
        items.push(DisplayText::new(String::from(text)));
    }
    items
}

fn debug_entries(n: usize) -> Vec<(DebugText, DebugText)> {
    let mut entries = Vec::new();
    for _ in 0..n {
        entries.push((
            DebugText::new(String::from("Foo")),
            DebugText::new(String::from("Bar")),
        ));
    }
    entries
}

fn display_entries(n: usize) -> Vec<(DisplayText, DisplayText)> {
    let mut entries = Vec::new();
    for _ in 0..n {
        entries.push((
            DisplayText::new(String::from("foo")),
            DisplayText::new(String::from("bar")),
        ));
    }
    entries
}

#[test]
fn test_debug_fmt_list() {
    let test_cases = [
        (0, "[]"),
        (1, "[Foo]"),
        (2, "[Foo, Foo]"),
        (3, "[Foo, Foo, Foo]"),
    ];

    for (count, expected) in test_cases {
        let fmt = fmt_debug_list(move || debug_items(count, "Foo"));
        let borrowed_fmt = &fmt;

        assert_eq!(fmt.render_debug(), expected);
        assert_eq!(fmt.render_display(), expected);
        assert_eq!(borrowed_fmt.render_debug(), expected);
        assert_eq!(borrowed_fmt.render_display(), expected);
    }
}

#[test]
fn test_display_fmt_list() {
    let test_cases = [
        (0, "[]"),
        (1, "[item]"),
        (2, "[item, item]"),
        (3, "[item, item, item]"),
    ];

    for (count, expected) in test_cases {
        let fmt = fmt_display_list(move || display_items(count, "item"));
        let borrowed_fmt = &fmt;

        assert_eq!(fmt.render_debug(), expected);
        assert_eq!(fmt.render_display(), expected);
        assert_eq!(borrowed_fmt.render_debug(), expected);
        assert_eq!(borrowed_fmt.render_display(), expected);
    }
}

#[test]
fn test_debug_fmt_set() {
    let test_cases = [
        (0, "{}"),
        (1, "{Foo}"),
        (2, "{Foo, Foo}"),
        (3, "{Foo, Foo, Foo}"),
    ];

    for (count, expected) in test_cases {
        let fmt = fmt_debug_set(move || debug_items(count, "Foo"));
        let borrowed_fmt = &fmt;

        assert_eq!(fmt.render_debug(), expected);
        assert_eq!(fmt.render_display(), expected);
        assert_eq!(borrowed_fmt.render_debug(), expected);
        assert_eq!(borrowed_fmt.render_display(), expected);
    }
}

#[test]
fn test_display_fmt_set() {
    let test_cases = [
        (0, "{}"),
        (1, "{item}"),
        (2, "{item, item}"),
        (3, "{item, item, item}"),
    ];

    for (count, expected) in test_cases {
        let fmt = fmt_display_set(move || display_items(count, "item"));
        let borrowed_fmt = &fmt;

        assert_eq!(fmt.render_debug(), expected);
        assert_eq!(fmt.render_display(), expected);
        assert_eq!(borrowed_fmt.render_debug(), expected);
        assert_eq!(borrowed_fmt.render_display(), expected);
    }
}

#[test]
fn test_debug_fmt_map() {
    let test_cases = [
        (0, "{}"),
        (1, "{Foo: Bar}"),
        (2, "{Foo: Bar, Foo: Bar}"),
        (3, "{Foo: Bar, Foo: Bar, Foo: Bar}"),
    ];

    for (count, expected) in test_cases {
        let fmt_map = fmt_debug_map(move || debug_entries(count));
        let borrowed_fmt_map = &fmt_map;

        assert_eq!(fmt_map.render_debug(), expected);
        assert_eq!(fmt_map.render_display(), expected);
        assert_eq!(borrowed_fmt_map.render_debug(), expected);
        assert_eq!(borrowed_fmt_map.render_display(), expected);
    }
}

#[test]
fn test_display_fmt_map() {
    let test_cases = [
        (0, "{}"),
        (1, "{foo: bar}"),
        (2, "{foo: bar, foo: bar}"),
        (3, "{foo: bar, foo: bar, foo: bar}"),
    ];

    for (count, expected) in test_cases {
        let fmt_map = fmt_display_map(move || display_entries(count));
        let borrowed_fmt_map = &fmt_map;

        assert_eq!(fmt_map.render_debug(), expected);
        assert_eq!(fmt_map.render_display(), expected);
        assert_eq!(borrowed_fmt_map.render_debug(), expected);
        assert_eq!(borrowed_fmt_map.render_display(), expected);
    }
}

#[test]
fn test_char_list_rendering() {
    let debug_fmt = fmt_debug_list(|| vec!['a', 'b', 'c']);
    assert_eq!(debug_fmt.render_debug(), "['a', 'b', 'c']");
    assert_eq!(debug_fmt.render_display(), "['a', 'b', 'c']");

    let display_fmt = fmt_display_list(|| vec!['a', 'b', 'c']);
    assert_eq!(display_fmt.render_debug(), "[a, b, c]");
    assert_eq!(display_fmt.render_display(), "[a, b, c]");
}

#[test]
fn test_display_map_mixed_entries() {
    let fmt_map = fmt_display_map(|| {
        vec![(String::from("x"), 1u64), (String::from("y"), 2u64)]
    });
    assert_eq!(fmt_map.render_display(), "{x: 1, y: 2}");
    assert_eq!(fmt_map.render_debug(), "{x: 1, y: 2}");
}

#[test]
fn test_set_keeps_source_order() {
    // "Set" names the bracket style only: items stay in source order and
    // duplicates stay.
    let fmt = fmt_display_set(|| vec![2u64, 1u64, 2u64]);
    assert_eq!(fmt.render_display(), "{2, 1, 2}");
}
