use stack_error::generate::{
    build_debug_fmt_impl, build_debug_impl, build_next_impl, stack_trace_debug, stack_trace_debug2,
    to_debug_match_arm, to_next_match_arm, EnumItem, MacroOutput,
};
use stack_error::parse::{
    AttributeItem, ErrorVariant, GenerationErrorKind, LineColumn, MetaItem, Span, VariantItem,
};
use stack_error::shape::Tail;
use stack_error::{StackError, StatusCode};
use stack_error::chain::{ChainNode, ExternalCause};

fn span(line: usize) -> Span {
    Span { start: LineColumn { line, column: 0 }, end: LineColumn { line, column: 9 } }
}

fn descriptor(name: &str, location: bool, source: bool, external: bool) -> ErrorVariant {
    let mut fields = vec!["key".to_string()];
    if source {
        fields.push("source".to_string());
    }
    if external {
        fields.push("error".to_string());
    }
    if location {
        fields.push("location".to_string());
    }
    ErrorVariant {
        name: name.to_string(),
        fields,
        has_location: location,
        has_source: source,
        has_external_cause: external,
        display: format!("\"{} failed\"", name),
        span: span(3),
        cfg_attr: None,
    }
}

fn item(name: &str, fields: &[&str], display: Option<&str>, line: usize) -> VariantItem {
    let attrs = match display {
        Some(text) => vec![AttributeItem {
            path: "snafu".to_string(),
            nested: Some(vec![MetaItem {
                path: "display".to_string(),
                content: Some(text.to_string()),
            }]),
            tokens: format!("#[snafu(display({}))]", text),
        }],
        None => vec![],
    };
    VariantItem {
        ident: name.to_string(),
        fields: fields.iter().map(|f| Some(f.to_string())).collect(),
        attrs,
        span: span(line),
    }
}

#[test]
fn debug_arm_for_each_shape() {
    let table = [
        (true, true, true, true, Tail::NestedTrace),
        (true, true, false, true, Tail::NestedTrace),
        (true, false, true, true, Tail::ExternalLine),
        (true, false, false, true, Tail::Nothing),
        (false, true, true, false, Tail::NestedTrace),
        (false, true, false, false, Tail::NestedTrace),
        (false, false, true, false, Tail::ExternalLine),
        (false, false, false, false, Tail::Nothing),
    ];
    for (location, source, external, with_location, tail) in table {
        let v = descriptor("Io", location, source, external);
        let arm = to_debug_match_arm(&v);
        assert_eq!(arm.with_location, with_location);
        assert_eq!(arm.tail, tail);
        assert_eq!(arm.display, "\"Io failed\"");
        assert_eq!(arm.pattern.name, "Io");
        assert_eq!(arm.pattern.fields, v.fields);
        assert_eq!(arm.pattern.span, span(3));
        assert_eq!(arm.pattern.cfg, None);
    }
}

#[test]
fn next_arm_yields_the_source_where_there_is_one() {
    for location in [true, false] {
        for external in [true, false] {
            let with = to_next_match_arm(&descriptor("A", location, true, external));
            assert!(with.yields_source);
            let without = to_next_match_arm(&descriptor("A", location, false, external));
            assert!(!without.yields_source);
            assert_eq!(without.pattern.name, "A");
        }
    }
}

#[test]
fn arms_carry_the_guard_of_the_variant() {
    let mut v = descriptor("Gated", true, false, false);
    v.cfg_attr = Some("#[cfg(feature = \"gated\")]".to_string());
    assert_eq!(to_debug_match_arm(&v).pattern.cfg, Some("#[cfg(feature = \"gated\")]".to_string()));
    assert_eq!(to_next_match_arm(&v).pattern.cfg, Some("#[cfg(feature = \"gated\")]".to_string()));
}

#[test]
fn impls_have_one_arm_for_each_variant_in_order() {
    let variants = vec![
        descriptor("Outer", true, true, false),
        descriptor("IoFail", true, false, true),
        descriptor("Inner", false, false, false),
    ];
    let name = "MyError".to_string();
    let debug_fmt = build_debug_fmt_impl(&name, &variants);
    assert_eq!(debug_fmt.enum_name, "MyError");
    let names: Vec<&str> = debug_fmt.arms.iter().map(|a| a.pattern.name.as_str()).collect();
    assert_eq!(names, vec!["Outer", "IoFail", "Inner"]);
    let tails: Vec<Tail> = debug_fmt.arms.iter().map(|a| a.tail).collect();
    assert_eq!(tails, vec![Tail::NestedTrace, Tail::ExternalLine, Tail::Nothing]);
    let located: Vec<bool> = debug_fmt.arms.iter().map(|a| a.with_location).collect();
    assert_eq!(located, vec![true, true, false]);

    let next = build_next_impl(&name, &variants);
    assert_eq!(next.enum_name, "MyError");
    let yields: Vec<bool> = next.arms.iter().map(|a| a.yields_source).collect();
    assert_eq!(yields, vec![true, false, false]);

    let none = build_debug_fmt_impl(&name, &vec![]);
    assert!(none.arms.is_empty());
    assert!(build_next_impl(&name, &vec![]).arms.is_empty());
}

#[test]
fn default_rendering_starts_at_layer_zero_and_joins_by_line_breaks() {
    let debug = build_debug_impl(&"MyError".to_string());
    assert_eq!(debug.enum_name, "MyError");
    assert_eq!(debug.first_layer, 0);
    assert_eq!(debug.separator, "\n");
}

#[test]
fn expansion_of_an_enum() {
    let input = EnumItem {
        ident: "TestError".to_string(),
        variants: vec![
            item("Invalid", &["source", "location"], Some("\"this has io error2\""), 1),
            item(
                "InvalidDatabaseOption",
                &["key", "location"],
                Some("\"Unrecognized database option key: {}\", key"),
                2,
            ),
        ],
        tokens: "enum TestError { .. }".to_string(),
    };
    let x = stack_trace_debug2("#[derive(Snafu)]".to_string(), &input).unwrap();
    assert_eq!(x.args, "#[derive(Snafu)]");
    assert_eq!(x.input, "enum TestError { .. }");
    assert_eq!(x.debug_fmt.enum_name, "TestError");
    assert_eq!(x.next.enum_name, "TestError");
    assert_eq!(x.debug.enum_name, "TestError");
    assert_eq!(x.debug_fmt.arms.len(), 2);
    assert_eq!(x.debug_fmt.arms[0].pattern.name, "Invalid");
    assert_eq!(x.debug_fmt.arms[0].tail, Tail::NestedTrace);
    assert!(x.debug_fmt.arms[0].with_location);
    assert_eq!(x.debug_fmt.arms[0].display, "\"this has io error2\"");
    assert_eq!(x.debug_fmt.arms[1].pattern.name, "InvalidDatabaseOption");
    assert_eq!(x.debug_fmt.arms[1].tail, Tail::Nothing);
    assert_eq!(x.debug_fmt.arms[1].pattern.fields, vec!["key".to_string(), "location".to_string()]);
    assert_eq!(x.debug_fmt.arms[1].pattern.span, span(2));
    assert!(x.next.arms[0].yields_source);
    assert!(!x.next.arms[1].yields_source);
}

#[test]
fn expansion_of_an_enum_without_variants() {
    let input = EnumItem { ident: "Never".to_string(), variants: vec![], tokens: "enum Never {}".to_string() };
    let x = stack_trace_debug2(String::new(), &input).unwrap();
    assert!(x.debug_fmt.arms.is_empty());
    assert!(x.next.arms.is_empty());
    assert_eq!(x.args, "");
}

#[test]
fn expansion_stops_at_the_first_defect() {
    let mut unnamed = item("Tuple", &[], Some("\"t\""), 6);
    unnamed.fields.push(None);
    let input = EnumItem {
        ident: "E".to_string(),
        variants: vec![
            item("Good", &["location"], Some("\"g\""), 4),
            item("NoDisplay", &["source"], None, 5),
            unnamed,
        ],
        tokens: String::new(),
    };
    let e = stack_trace_debug2(String::new(), &input).unwrap_err();
    assert_eq!(e.kind, GenerationErrorKind::MissingDisplay);
    assert_eq!(e.span, span(5));
}

#[test]
fn entry_point_reports_a_defect_as_a_compile_error() {
    let input = EnumItem {
        ident: "E".to_string(),
        variants: vec![item("NoDisplay", &[], None, 8)],
        tokens: String::new(),
    };
    match stack_trace_debug(String::new(), &input) {
        MacroOutput::CompileError { message, span: at } => {
            assert_eq!(message, "Each error should contains a display attribute");
            assert_eq!(at, span(8));
        }
        MacroOutput::Expansion(_) => panic!("a variant without display must not expand"),
    }

    let mut tuple = item("Tuple", &[], Some("\"t\""), 9);
    tuple.fields.push(None);
    let input = EnumItem { ident: "E".to_string(), variants: vec![tuple], tokens: String::new() };
    match stack_trace_debug(String::new(), &input) {
        MacroOutput::CompileError { message, span: at } => {
            assert_eq!(message, "Each field should have a name");
            assert_eq!(at, span(9));
        }
        MacroOutput::Expansion(_) => panic!("a field without a name must not expand"),
    }

    let mut odd = item("Odd", &[], Some("\"o\""), 11);
    odd.attrs[0].nested.as_mut().unwrap().push(MetaItem { path: "context".to_string(), content: None });
    let input = EnumItem { ident: "E".to_string(), variants: vec![odd], tokens: String::new() };
    match stack_trace_debug(String::new(), &input) {
        MacroOutput::CompileError { message, span: at } => {
            assert_eq!(message, "unrecognized repr");
            assert_eq!(at, span(11));
        }
        MacroOutput::Expansion(_) => panic!("an unrecognized annotation must not expand"),
    }
}

#[test]
fn entry_point_hands_back_the_expansion() {
    let input = EnumItem {
        ident: "E".to_string(),
        variants: vec![item("IoFail", &["error", "location"], Some("\"io failure\""), 2)],
        tokens: "enum E { IoFail { error: io::Error, location: Location } }".to_string(),
    };
    match stack_trace_debug("#[x]".to_string(), &input) {
        MacroOutput::Expansion(x) => {
            assert_eq!(x.args, "#[x]");
            assert_eq!(x.input, input.tokens);
            assert_eq!(x.debug_fmt.arms[0].tail, Tail::ExternalLine);
            assert!(!x.next.arms[0].yields_source);
        }
        MacroOutput::CompileError { .. } => panic!("a well-formed enum must expand"),
    }
}

#[test]
fn arms_describe_what_values_of_the_variant_do() {
    for location in [true, false] {
        for source in [true, false] {
            for external in [true, false] {
                let v = descriptor("V", location, source, external);
                let node = ChainNode {
                    message: "m".to_string(),
                    location: if location { Some("here".to_string()) } else { None },
                    source: if source {
                        Some(Box::new(ChainNode::leaf("n".to_string(), None, StatusCode::Unknown)))
                    } else {
                        None
                    },
                    error: if external {
                        Some(ExternalCause::new("D".to_string(), "d".to_string()))
                    } else {
                        None
                    },
                    status_code: StatusCode::Unknown,
                };
                let debug = to_debug_match_arm(&v);
                let next = to_next_match_arm(&v);
                let mut own = Vec::new();
                node.format_line(0, &mut own);
                assert_eq!(own[0].ends_with(", at here"), debug.with_location);
                assert_eq!(own.len() == 2, debug.tail == Tail::ExternalLine);
                assert_eq!(node.next().is_some(), next.yields_source);
                assert_eq!(node.next().is_some(), debug.tail == Tail::NestedTrace);
                assert_eq!(node.classify(), v.shape());
            }
        }
    }
}
