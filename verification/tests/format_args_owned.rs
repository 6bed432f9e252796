use fmt_tools::{format_args_owned, ArgValue};

#[test]
fn test_format_args_owned() {
    let fmt = {
        let value = vec![4u64];
        let value_2 = 7u64;

        format_args_owned(
            String::from("{:?}, {:?}, {name_argument}"),
            vec![ArgValue::UintList(value), ArgValue::UintList(vec![5u64])],
            vec![(String::from("name_argument"), ArgValue::Uint(value_2))],
        )
    };

    assert_eq!(fmt.render_display(), "[4], [5], 7");
    assert_eq!(fmt.render_debug(), "[4], [5], 7");
}

#[test]
fn test_positional_display_and_debug_forms() {
    let fmt = format_args_owned(
        String::from("{} and {:?}"),
        vec![
        ArgValue::Text(String::from("plain")),
        ArgValue::Text(String::from("quoted")),
    ],
        Vec::new(),
    );

    assert_eq!(fmt.render_display(), "plain and \"quoted\"");
}

#[test]
fn test_named_debug_form_and_braces_escape() {
    let fmt = format_args_owned(
        String::from("{{{who:?}}} {who}"),
        Vec::new(),
        vec![(String::from("who"), ArgValue::Ch('x'))],
    );

    assert_eq!(fmt.render_display(), "{'x'} x");
}

#[test]
fn test_rendering_is_repeatable() {
    let fmt = format_args_owned(
        String::from("n = {}"),
        vec![ArgValue::Uint(12u64)],
        Vec::new(),
    );

    let first = fmt.render_display();
    let second = fmt.render_display();
    let third = fmt.render_debug();
    assert_eq!(first, "n = 12");
    assert_eq!(second, first);
    assert_eq!(third, first);
}

#[test]
fn test_owned_arguments_outlive_scope() {
    let fmt = {
        let moved_text = String::from("gone");
        let moved_custom = ArgValue::Custom {
            debug: String::from("D"),
            display: String::from("d"),
        };

        format_args_owned(
            String::from("{}/{:?}"),
            vec![ArgValue::Text(moved_text), moved_custom],
            Vec::new(),
        )
    };

    assert_eq!(fmt.render_display(), "gone/D");
    assert_eq!(fmt.render_display(), "gone/D");
}
