use enum_display::Attribute;
use enum_display::FieldList;
use enum_display::TypeBody;
use enum_display::TypeDecl;
use enum_display::VariantInput;
use enum_display::classify;
use enum_display::format_variant;

fn variant(name: &str, fields: FieldList) -> VariantInput {
    VariantInput { name: name.to_string(), fields, attrs: Vec::new() }
}

fn labeled_variant(name: &str, fields: FieldList, label_token: &str) -> VariantInput {
    VariantInput {
        name: name.to_string(),
        fields,
        attrs: vec![Attribute {
            name: "display".to_string(),
            literal: Some(label_token.to_string()),
        }],
    }
}

#[test]
fn test_derive() {
    let decl = TypeDecl {
        name: "FooBar".to_string(),
        body: TypeBody::Enum(vec![
            variant("Foo", FieldList::Unit),
            variant("Bar", FieldList::Unit),
            variant("FooBar", FieldList::Unnamed(0)),
            variant("Number", FieldList::Unnamed(1)),
        ]),
    };
    let descriptors = classify(&decl).unwrap();
    assert_eq!(String::from("Foo"), format_variant(&descriptors[0], ""));
    assert_eq!(String::from("Bar"), format_variant(&descriptors[1], ""));
    assert_eq!(String::from("FooBar()"), format_variant(&descriptors[2], ""));
    assert_eq!(String::from("42"), format_variant(&descriptors[3], "42"));
}

#[test]
fn test_derive_custom_names() {
    let decl = TypeDecl {
        name: "FooBar".to_string(),
        body: TypeBody::Enum(vec![
            labeled_variant("Foo", FieldList::Unit, "\"foo\""),
            labeled_variant("Bar", FieldList::Unit, "\"bar\""),
            labeled_variant("FooBar", FieldList::Unnamed(0), "\"foo_bar\""),
            variant("Number", FieldList::Unnamed(1)),
        ]),
    };
    let descriptors = classify(&decl).unwrap();
    assert_eq!(String::from("foo"), format_variant(&descriptors[0], ""));
    assert_eq!(String::from("bar"), format_variant(&descriptors[1], ""));
    assert_eq!(String::from("foo_bar()"), format_variant(&descriptors[2], ""));
    assert_eq!(String::from("42"), format_variant(&descriptors[3], "42"));
}
