use enum_display::Attribute;
use enum_display::Error;
use enum_display::FieldList;
use enum_display::TypeBody;
use enum_display::TypeDecl;
use enum_display::VariantInput;
use enum_display::VariantShape;
use enum_display::classify;
use enum_display::display;
use enum_display::format_variant;
use enum_display::resolve_label;
use enum_display::trim_quote_marks;

fn variant(name: &str, fields: FieldList) -> VariantInput {
    VariantInput { name: name.to_string(), fields, attrs: Vec::new() }
}

fn labeled_variant(name: &str, fields: FieldList, label_token: &str) -> VariantInput {
    VariantInput {
        name: name.to_string(),
        fields,
        attrs: vec![Attribute {
            name: "display".to_string(),
            literal: Some(label_token.to_string()),
        }],
    }
}

fn enum_decl(name: &str, variants: Vec<VariantInput>) -> TypeDecl {
    TypeDecl { name: name.to_string(), body: TypeBody::Enum(variants) }
}

#[test]
fn full_generated_text() {
    let decl = enum_decl(
        "FooBar",
        vec![
            variant("Foo", FieldList::Unit),
            variant("Bar", FieldList::Unit),
            variant("FooBar", FieldList::Unnamed(0)),
            variant("Number", FieldList::Unnamed(1)),
        ],
    );
    let expected = [
        "impl Display for FooBar {",
        "    fn fmt(&self, f: &mut ::std::fmt::Formatter) -> Result<(), ::std::fmt::Error> {",
        "        match *self {",
        "            FooBar::Foo => f.write_str(\"Foo\"),",
        "            FooBar::Bar => f.write_str(\"Bar\"),",
        "            FooBar::FooBar() => { f.write_str(\"FooBar\")?; f.write_str(\"()\") }",
        "            FooBar::Number(ref inner) => ::std::fmt::Display::fmt(inner, f),",
        "        }",
        "    }",
        "}",
    ]
    .join("\n")
        + "\n";
    assert_eq!(Ok(expected), display(&decl));
}

#[test]
fn generated_text_for_empty_enum() {
    let decl = enum_decl("Nothing", Vec::new());
    let expected = [
        "impl Display for Nothing {",
        "    fn fmt(&self, f: &mut ::std::fmt::Formatter) -> Result<(), ::std::fmt::Error> {",
        "        match *self {",
        "        }",
        "    }",
        "}",
    ]
    .join("\n")
        + "\n";
    assert_eq!(Ok(expected), display(&decl));
}

#[test]
fn generated_text_uses_override_labels() {
    let decl = enum_decl(
        "FooBar",
        vec![
            labeled_variant("Foo", FieldList::Unit, "\"foo\""),
            labeled_variant("FooBar", FieldList::Unnamed(0), "\"foo_bar\""),
        ],
    );
    let expected = [
        "impl Display for FooBar {",
        "    fn fmt(&self, f: &mut ::std::fmt::Formatter) -> Result<(), ::std::fmt::Error> {",
        "        match *self {",
        "            FooBar::Foo => f.write_str(\"foo\"),",
        "            FooBar::FooBar() => { f.write_str(\"foo_bar\")?; f.write_str(\"()\") }",
        "        }",
        "    }",
        "}",
    ]
    .join("\n")
        + "\n";
    assert_eq!(Ok(expected), display(&decl));
}

#[test]
fn rejects_struct_declaration() {
    let decl = TypeDecl { name: "NotAnEnum".to_string(), body: TypeBody::Struct };
    assert_eq!(Err(Error::UnsupportedTypeKind), display(&decl));
}

#[test]
fn rejects_union_declaration() {
    let decl = TypeDecl { name: "NotAnEnum".to_string(), body: TypeBody::Union };
    assert_eq!(Err(Error::UnsupportedTypeKind), display(&decl));
}

#[test]
fn rejects_named_field_variant() {
    let decl = enum_decl(
        "Mixed",
        vec![variant("Fine", FieldList::Unit), variant("Record", FieldList::Named(1))],
    );
    assert_eq!(Err(Error::UnsupportedVariantShape), display(&decl));
}

#[test]
fn rejects_two_unnamed_fields() {
    let decl = enum_decl(
        "Mixed",
        vec![variant("Fine", FieldList::Unit), variant("Pair", FieldList::Unnamed(2))],
    );
    assert_eq!(Err(Error::UnsupportedVariantShape), display(&decl));
}

#[test]
fn rejects_malformed_override() {
    let bad = VariantInput {
        name: "Odd".to_string(),
        fields: FieldList::Unit,
        attrs: vec![Attribute { name: "display".to_string(), literal: None }],
    };
    let decl = enum_decl("Annotated", vec![bad]);
    assert_eq!(Err(Error::MalformedOverrideAnnotation), display(&decl));
}

#[test]
fn malformed_override_reported_before_bad_shape() {
    let bad_attr = VariantInput {
        name: "Odd".to_string(),
        fields: FieldList::Unit,
        attrs: vec![Attribute { name: "display".to_string(), literal: None }],
    };
    let decl = enum_decl("Mixed", vec![bad_attr, variant("Pair", FieldList::Unnamed(2))]);
    assert_eq!(Err(Error::MalformedOverrideAnnotation), display(&decl));
}

#[test]
fn unrecognized_annotations_are_ignored() {
    let v = VariantInput {
        name: "Plain".to_string(),
        fields: FieldList::Unit,
        attrs: vec![Attribute { name: "doc".to_string(), literal: Some("\"ignored\"".to_string()) }],
    };
    assert_eq!(Ok("Plain".to_string()), resolve_label(&v));
}

#[test]
fn override_ignored_for_single_payload() {
    let decl = enum_decl(
        "FooBar",
        vec![labeled_variant("Number", FieldList::Unnamed(1), "\"number\"")],
    );
    let descriptors = classify(&decl).unwrap();
    assert_eq!(VariantShape::SinglePayload, descriptors[0].shape);
    assert_eq!(String::from("number"), descriptors[0].label);
    assert_eq!(String::from("42"), format_variant(&descriptors[0], "42"));
}

#[test]
fn label_resolution_is_idempotent() {
    let v = labeled_variant("Foo", FieldList::Unit, "\"foo\"");
    let first = resolve_label(&v).unwrap();
    let second = resolve_label(&v).unwrap();
    assert_eq!(first, second);
    assert_eq!(String::from("foo"), first);
}

#[test]
fn first_display_annotation_wins() {
    let v = VariantInput {
        name: "Foo".to_string(),
        fields: FieldList::Unit,
        attrs: vec![
            Attribute { name: "display".to_string(), literal: Some("\"first\"".to_string()) },
            Attribute { name: "display".to_string(), literal: Some("\"second\"".to_string()) },
        ],
    };
    assert_eq!(Ok("first".to_string()), resolve_label(&v));
}

#[test]
fn escapes_backslashes_in_generated_literal() {
    // The override token holds a backslash escape: the stripped label is
    // the four characters `a`, `\`, `n`, `b`, rendered verbatim, and the
    // generated string literal doubles the backslash so that it denotes
    // exactly those four characters.
    let decl = enum_decl("FooBar", vec![labeled_variant("Foo", FieldList::Unit, "\"a\\nb\"")]);
    let descriptors = classify(&decl).unwrap();
    assert_eq!(String::from("a\\nb"), format_variant(&descriptors[0], ""));
    let expected = [
        "impl Display for FooBar {",
        "    fn fmt(&self, f: &mut ::std::fmt::Formatter) -> Result<(), ::std::fmt::Error> {",
        "        match *self {",
        "            FooBar::Foo => f.write_str(\"a\\\\nb\"),",
        "        }",
        "    }",
        "}",
    ]
    .join("\n")
        + "\n";
    assert_eq!(Ok(expected), display(&decl));
}

#[test]
fn escapes_quotes_in_generated_literal() {
    // A raw-string override token keeps an inner quote in the stripped
    // label (`r`, `"`, `x`); the generated string literal escapes it.
    let decl = enum_decl("FooBar", vec![labeled_variant("Foo", FieldList::Unnamed(0), "r\"x\"")]);
    let descriptors = classify(&decl).unwrap();
    assert_eq!(String::from("r\"x()"), format_variant(&descriptors[0], ""));
    let expected = [
        "impl Display for FooBar {",
        "    fn fmt(&self, f: &mut ::std::fmt::Formatter) -> Result<(), ::std::fmt::Error> {",
        "        match *self {",
        "            FooBar::Foo() => { f.write_str(\"r\\\"x\")?; f.write_str(\"()\") }",
        "        }",
        "    }",
        "}",
    ]
    .join("\n")
        + "\n";
    assert_eq!(Ok(expected), display(&decl));
}

#[test]
fn trims_surrounding_quotes_only() {
    assert_eq!(String::from("foo"), trim_quote_marks("\"foo\""));
    assert_eq!(String::from("foo"), trim_quote_marks("foo"));
    assert_eq!(String::from(""), trim_quote_marks("\"\""));
    assert_eq!(String::from(""), trim_quote_marks("\"\"\""));
    assert_eq!(String::from("a\"b"), trim_quote_marks("\"a\"b\""));
    assert_eq!(String::from(""), trim_quote_marks(""));
}
