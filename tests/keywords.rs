use vertex_format::attrib::{ScalarType, TypeFamily};
use vertex_format::diagnostic::{Diagnostic, DiagnosticKind, SourceLocation};
use vertex_format::layout::{try_layout, FieldLayout};
use vertex_format::modifier::{find_modifier, Modifier};
use vertex_format::text::str_equals;

fn loc() -> SourceLocation {
    SourceLocation { line: 3, column: 1 }
}

fn words(ws: &[&str]) -> Vec<String> {
    ws.iter().map(|w| w.to_string()).collect()
}

#[test]
fn keyword_table_round_trips() {
    for m in [Modifier::Normalized, Modifier::AsFloat, Modifier::AsDouble] {
        assert_eq!(Modifier::from_keyword(m.keyword()), Some(m));
    }
    assert_eq!(Modifier::AsDouble.keyword(), "as_double");
    assert_eq!(Modifier::from_keyword("as_floats"), None);
    assert_eq!(Modifier::from_keyword(""), None);
}

#[test]
fn scalar_names_are_looked_up() {
    assert_eq!(ScalarType::from_name("f64"), Some(ScalarType::Float { width: 64 }));
    assert_eq!(ScalarType::from_name("u16"), Some(ScalarType::Int { width: 16, signed: false }));
    assert_eq!(ScalarType::from_name("i64"), Some(ScalarType::Int { width: 64, signed: true }));
    assert_eq!(ScalarType::from_name("f16"), None);
    assert_eq!(ScalarType::from_name("i"), None);
}

#[test]
fn resolver_reports_discarded_and_kept() {
    let mut diags = Vec::new();
    let r = find_modifier(loc(), &words(&["as_double", "x", "normalized"]), &mut diags);
    assert_eq!(r, None);
    assert_eq!(
        diags,
        vec![Diagnostic {
            location: loc(),
            kind: DiagnosticKind::ConflictingModifiers { discarded: Modifier::Normalized, kept: Modifier::AsDouble },
        }]
    );
    let r = find_modifier(loc(), &words(&["x", "as_float"]), &mut diags);
    assert_eq!(r, Some(Modifier::AsFloat));
    assert_eq!(diags.len(), 1);
}

#[test]
fn messages_name_the_modifiers_and_types() {
    let d = Diagnostic {
        location: loc(),
        kind: DiagnosticKind::ConflictingModifiers { discarded: Modifier::AsFloat, kept: Modifier::Normalized },
    };
    assert_eq!(d.message(), "Extra attribute modifier detected: `#[as_float]` - ignoring it and `#[normalized]`.");
    let d = Diagnostic {
        location: loc(),
        kind: DiagnosticKind::IncompatibleModifier { modifier: Modifier::Normalized, family: TypeFamily::Float },
    };
    assert_eq!(d.message(), "Incompatible float modifier attribute: `#[normalized]`");
    let d = Diagnostic { location: loc(), kind: DiagnosticKind::UnrecognizedType { scalar_name: "bool".to_string() } };
    assert_eq!(d.message(), "Unrecognized component type: `bool`");
    let d = Diagnostic { location: loc(), kind: DiagnosticKind::UnsupportedShape { description: "&[u8]".to_string() } };
    assert_eq!(d.message(), "Unsupported attribute type: `&[u8]`");
    let d = Diagnostic { location: loc(), kind: DiagnosticKind::NotARecord { item_name: "E".to_string() } };
    assert_eq!(d.message(), "Unable to derive a vertex format for `E`: not a structure with named fields");
}

#[test]
fn layout_of_plain_fields() {
    let ls = vec![FieldLayout { size: 2, align: 2 }, FieldLayout { size: 8, align: 8 }, FieldLayout { size: 0, align: 1 }];
    assert_eq!(try_layout(&ls), Some((vec![0, 8, 16], 16)));
    assert_eq!(try_layout(&Vec::new()), Some((Vec::new(), 0)));
    assert_eq!(try_layout(&vec![FieldLayout { size: u64::MAX, align: 1 }]), Some((vec![0], u64::MAX)));
    assert_eq!(try_layout(&vec![FieldLayout { size: u64::MAX, align: 2 }]), None);
}

#[test]
fn string_equality() {
    assert!(str_equals("abc", "abc"));
    assert!(!str_equals("abc", "abd"));
    assert!(!str_equals("ab", "abc"));
    assert!(str_equals("", ""));
}
