use fmt_tools::render::{DebugText, DisplayText};
use fmt_tools::{debug_separated_list, display_separated_list};
use fmt_tools::{fmt_separated_debug_list, fmt_separated_display_list};

fn debug_items(n: usize, text: &str) -> Vec<DebugText> {
    let mut items = Vec::new();
    for _ in 0..n {
        items.push(DebugText::new(String::from(text)));
    }
    items
}

fn display_items(n: usize, text: &str) -> Vec<DisplayText> {
    let mut items = Vec::new();
    for _ in 0..n {
        items.push(DisplayText::new(String::from(text)));
    }
    items
}

#[test]
fn fmt_separated_list_test_debug_separated_list() {
    let test_cases = [(0, ""), (1, "Foo"), (2, "FooBarFoo"), (3, "FooBarFooBarFoo")];

    for (count, expected) in test_cases {
        let fmt = fmt_separated_debug_list(
            move || debug_items(count, "Foo"),
            DebugText::new(String::from("Bar")),
        );
        let borrowed_fmt = &fmt;

        assert_eq!(fmt.render_debug(), expected);
        assert_eq!(borrowed_fmt.render_debug(), expected);
    }
}

#[test]
fn fmt_separated_list_test_display_separated_list() {
    let test_cases = [(0, ""), (1, "item"), (2, "item, item"), (3, "item, item, item")];

    for (count, expected) in test_cases {
        let fmt = fmt_separated_display_list(
            move || display_items(count, "item"),
            DisplayText::new(String::from(", ")),
        );
        let borrowed_fmt = &fmt;

        assert_eq!(fmt.render_display(), expected);
        assert_eq!(borrowed_fmt.render_display(), expected);
    }
}

#[test]
fn separated_list_test_debug_separated_list() {
    let test_cases = [(0, ""), (1, "Foo"), (2, "FooBarFoo"), (3, "FooBarFooBarFoo")];

    for (count, expected) in test_cases {
        let separated = debug_separated_list(
            move || debug_items(count, "Foo"),
            DebugText::new(String::from("Bar")),
        );
        let borrowed_separated = &separated;

        assert_eq!(separated.render_debug(), expected);
        assert_eq!(borrowed_separated.render_debug(), expected);
    }
}

#[test]
fn separated_list_test_display_separated_list() {
    let test_cases = [(0, ""), (1, "item"), (2, "item, item"), (3, "item, item, item")];

    for (count, expected) in test_cases {
        let separated = display_separated_list(
            move || display_items(count, "item"),
            DisplayText::new(String::from(", ")),
        );
        let borrowed_separated = &separated;

        assert_eq!(separated.render_display(), expected);
        assert_eq!(borrowed_separated.render_display(), expected);
    }
}

#[test]
fn test_single_item_never_uses_separator() {
    let fmt = fmt_separated_debug_list(
        || vec![DebugText::new(String::from("Foo"))],
        DebugText::new(String::from("Bar")),
    );
    assert_eq!(fmt.render_debug(), "Foo");
}

#[test]
fn test_two_items_one_separator() {
    let fmt = fmt_separated_debug_list(
        || {
            vec![
                DebugText::new(String::from("Foo")),
                DebugText::new(String::from("Foo")),
            ]
        },
        DebugText::new(String::from("Bar")),
    );
    assert_eq!(fmt.render_debug(), "FooBarFoo");
}
