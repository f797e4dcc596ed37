use viable::directive::{
    accept, contains_kind, copy_passed_on, find_directive, member_directives, read_argument,
    Directive, DirectiveFault, DirectiveKind,
};
use viable::literal::{has_literal_shape, parse_integer};
use viable::model::Attribute;

fn written(name: &str, argument: Option<&str>) -> Attribute {
    Attribute {
        name: name.to_string(),
        argument: argument.map(|text| text.to_string()),
        text: match argument {
            Some(argument) => format!("#[{}({})]", name, argument),
            None => format!("#[{}]", name),
        },
    }
}

#[test]
fn integer_literals_are_read() {
    assert_eq!(parse_integer("0"), Some(0));
    assert_eq!(parse_integer("1"), Some(1));
    assert_eq!(parse_integer("42"), Some(42));
    assert_eq!(parse_integer("-5"), Some(-5));
    assert_eq!(parse_integer("1_000"), Some(1000));
    assert_eq!(parse_integer("0x10"), Some(16));
    assert_eq!(parse_integer("0b101"), Some(5));
    assert_eq!(parse_integer("0o17"), Some(15));
    assert_eq!(parse_integer("3usize"), Some(3));
    assert_eq!(parse_integer(" 7 "), Some(7));
    assert_eq!(
        parse_integer("170141183460469231731687303715884105727"),
        Some(i128::MAX)
    );
}

#[test]
fn other_texts_are_no_integers() {
    assert_eq!(parse_integer(""), None);
    assert_eq!(parse_integer("one"), None);
    assert_eq!(parse_integer("true"), None);
    assert_eq!(parse_integer("1 2"), None);
    assert_eq!(parse_integer("- -1"), None);
    assert_eq!(parse_integer("1e5"), None);
    assert_eq!(parse_integer("2e"), None);
    assert_eq!(parse_integer("1e-"), None);
    assert_eq!(parse_integer("1.5"), None);
    assert_eq!(parse_integer("\"1\""), None);
    assert_eq!(parse_integer("(1)"), None);
    assert_eq!(parse_integer("1 + 1"), None);
    assert_eq!(parse_integer("c\"1\""), None);
    assert_eq!(parse_integer("١"), None);
    assert_eq!(
        parse_integer("170141183460469231731687303715884105728"),
        None
    );
}

#[test]
fn texts_with_the_shape_of_a_literal() {
    for text in [
        "0", "7", "007", "1_000", "1_", "0x1F", "0xff_ff", "0o17", "0b1010", "3usize", "3u8",
        "3u16", "3u32", "3u64", "3u128", "3i8", "3i16", "3i32", "3i64", "3i128", "3isize",
        "0x10u8", "0b1i64", "-5", "- 5", " -  5 ", "  12  ", "-0x10",
    ] {
        assert!(has_literal_shape(text), "{:?}", text);
    }
}

#[test]
fn texts_without_the_shape_of_a_literal() {
    for text in [
        "", " ", "-", "_1", "one", "true", "1 2", "- -1", "--1", "+1", "1e5", "1e", "2e", "1e-",
        "1.5", "1.", "0x", "0x_1", "0xg", "0b2", "0b12", "0o8", "0X10", "1u", "1u9", "1us",
        "1usizes", "1u8 u8", "1f32", "1 u8", "\"1\"", "(1)", "1 + 1", "c\"1\"", "1\n", "1\t",
        "\u{661}", "1\u{e9}",
    ] {
        assert!(!has_literal_shape(text), "{:?}", text);
        assert_eq!(parse_integer(text), None, "{:?}", text);
    }
}

#[test]
fn the_value_is_the_parsers_and_not_the_text() {
    // Equal values from different texts, and a sign that is kept.
    assert_eq!(parse_integer("16"), parse_integer("0x10"));
    assert_eq!(parse_integer("0b1_0000"), parse_integer("0o20"));
    assert_eq!(parse_integer("- 16"), Some(-16));
    assert_eq!(parse_integer("-0x10"), Some(-16));
    assert_eq!(parse_integer("255u8"), Some(255));
    assert_eq!(parse_integer("300u8"), Some(300));
}

#[test]
fn directive_names() {
    assert_eq!(DirectiveKind::named(&"offset".to_string()), Some(DirectiveKind::Offset));
    assert_eq!(DirectiveKind::named(&"check".to_string()), Some(DirectiveKind::Check));
    assert_eq!(DirectiveKind::named(&"skip".to_string()), Some(DirectiveKind::Skip));
    assert_eq!(DirectiveKind::named(&"doc".to_string()), None);
    assert_eq!(DirectiveKind::named(&"Offset".to_string()), None);
    assert_eq!(DirectiveKind::named(&"".to_string()), None);
    assert_eq!(DirectiveKind::Offset.name(), "offset");
    assert_eq!(DirectiveKind::Check.name(), "check");
    assert_eq!(DirectiveKind::Skip.name(), "skip");
}

#[test]
fn directives_from_values() {
    assert_eq!(
        Directive::from_value(DirectiveKind::Offset, Some(3)),
        Some(Directive::Offset(3))
    );
    assert_eq!(
        Directive::from_value(DirectiveKind::Check, Some(0)),
        Some(Directive::Check(0))
    );
    assert_eq!(
        Directive::from_value(DirectiveKind::Skip, Some(-4)),
        Some(Directive::Skip(-4))
    );
    assert_eq!(Directive::from_value(DirectiveKind::Offset, Some(-1)), None);
    assert_eq!(Directive::from_value(DirectiveKind::Check, Some(-1)), None);
    assert_eq!(Directive::from_value(DirectiveKind::Offset, None), None);
    assert_eq!(
        Directive::from_value(DirectiveKind::Offset, Some(usize::MAX as i128)),
        Some(Directive::Offset(usize::MAX))
    );
    assert_eq!(
        Directive::from_value(DirectiveKind::Offset, Some(usize::MAX as i128 + 1)),
        None
    );
    assert_eq!(
        Directive::from_value(DirectiveKind::Skip, Some(i64::MIN as i128)),
        Some(Directive::Skip(i64::MIN))
    );
    assert_eq!(
        Directive::from_value(DirectiveKind::Skip, Some(i64::MAX as i128 + 1)),
        None
    );
    assert_eq!(
        Directive::from_value(DirectiveKind::Skip, Some(i64::MIN as i128 - 1)),
        None
    );
    assert_eq!(Directive::Offset(1).kind(), DirectiveKind::Offset);
    assert_eq!(Directive::Check(1).kind(), DirectiveKind::Check);
    assert_eq!(Directive::Skip(1).kind(), DirectiveKind::Skip);
}

#[test]
fn a_member_takes_each_kind_once() {
    let found = vec![Directive::Skip(1)];
    assert!(contains_kind(&found, DirectiveKind::Skip));
    assert!(!contains_kind(&found, DirectiveKind::Offset));
    assert_eq!(
        accept(&found, DirectiveKind::Offset, Some(2)),
        Ok(Directive::Offset(2))
    );
    assert_eq!(
        accept(&found, DirectiveKind::Skip, Some(2)),
        Err(DirectiveFault::Duplicate(DirectiveKind::Skip))
    );
    assert_eq!(
        accept(&found, DirectiveKind::Check, None),
        Err(DirectiveFault::Malformed(DirectiveKind::Check))
    );
    let found = vec![Directive::Offset(1)];
    assert_eq!(
        accept(&found, DirectiveKind::Check, Some(1)),
        Err(DirectiveFault::Conflicting)
    );
    assert_eq!(
        accept(&found, DirectiveKind::Offset, Some(1)),
        Err(DirectiveFault::Duplicate(DirectiveKind::Offset))
    );
    let found = vec![Directive::Check(1)];
    assert_eq!(
        accept(&found, DirectiveKind::Offset, Some(1)),
        Err(DirectiveFault::Conflicting)
    );
    assert_eq!(
        accept(&found, DirectiveKind::Skip, Some(1)),
        Ok(Directive::Skip(1))
    );
}

#[test]
fn directives_are_collected_in_order() {
    let attributes = vec![
        written("doc", None),
        written("skip", Some("1")),
        written("inline", None),
        written("check", Some("3")),
    ];
    assert_eq!(
        member_directives(&attributes),
        Ok(vec![Directive::Skip(1), Directive::Check(3)])
    );
    assert_eq!(member_directives(&vec![]), Ok(vec![]));
    assert_eq!(member_directives(&vec![written("doc", None)]), Ok(vec![]));
}

#[test]
fn faulty_directives_are_refused() {
    assert_eq!(
        member_directives(&vec![written("offset", Some("one"))]),
        Err(DirectiveFault::Malformed(DirectiveKind::Offset))
    );
    assert_eq!(
        member_directives(&vec![written("offset", Some("\"1\""))]),
        Err(DirectiveFault::Malformed(DirectiveKind::Offset))
    );
    assert_eq!(
        member_directives(&vec![written("offset", Some("-1"))]),
        Err(DirectiveFault::Malformed(DirectiveKind::Offset))
    );
    assert_eq!(
        member_directives(&vec![written("check", None)]),
        Err(DirectiveFault::Malformed(DirectiveKind::Check))
    );
    assert_eq!(
        member_directives(&vec![written("skip", Some("1.5"))]),
        Err(DirectiveFault::Malformed(DirectiveKind::Skip))
    );
    assert_eq!(
        member_directives(&vec![written("skip", Some("1")), written("skip", Some("2"))]),
        Err(DirectiveFault::Duplicate(DirectiveKind::Skip))
    );
    assert_eq!(
        member_directives(&vec![written("offset", Some("1")), written("check", Some("1"))]),
        Err(DirectiveFault::Conflicting)
    );
    assert_eq!(
        member_directives(&vec![written("check", Some("1")), written("offset", Some("1"))]),
        Err(DirectiveFault::Conflicting)
    );
    // The first fault in written order is the one reported.
    assert_eq!(
        member_directives(&vec![
            written("skip", Some("x")),
            written("offset", Some("1")),
            written("offset", Some("2")),
        ]),
        Err(DirectiveFault::Malformed(DirectiveKind::Skip))
    );
}

#[test]
fn arguments_are_read_as_integers() {
    assert_eq!(read_argument(&written("offset", Some("0x20"))), Some(32));
    assert_eq!(read_argument(&written("offset", None)), None);
    assert_eq!(read_argument(&written("offset", Some("x"))), None);
}

#[test]
fn the_first_directive_is_found() {
    assert_eq!(find_directive(&vec![]), None);
    assert_eq!(find_directive(&vec![written("doc", None)]), None);
    assert_eq!(
        find_directive(&vec![
            written("doc", None),
            written("check", Some("1")),
            written("skip", Some("1")),
        ]),
        Some(DirectiveKind::Check)
    );
}

#[test]
fn other_attributes_are_passed_on() {
    let attributes = vec![
        written("doc", Some("hidden")),
        written("offset", Some("1")),
        written("inline", None),
        written("skip", Some("1")),
    ];
    assert_eq!(
        copy_passed_on(&attributes),
        vec![written("doc", Some("hidden")), written("inline", None)]
    );
}
