use vertex_format::attrib::{AttributeType, FloatPrecision, IntMode, TypeFamily};
use vertex_format::diagnostic::{Diagnostic, DiagnosticKind, Severity, SourceLocation};
use vertex_format::layout::FieldLayout;
use vertex_format::modifier::Modifier;
use vertex_format::schema::{ElementCount, FieldShape, FieldSpec, ItemBody, ItemSchema};
use vertex_format::vertex::{expand_vertex_format, BufferHandle, Derivation};

fn at(line: u32) -> SourceLocation {
    SourceLocation { line, column: 5 }
}

fn field(name: &str, line: u32, shape: FieldShape, mods: &[&str], size: u64, align: u64) -> FieldSpec {
    FieldSpec {
        name: name.to_string(),
        location: at(line),
        shape,
        modifiers: mods.iter().map(|m| m.to_string()).collect(),
        layout: FieldLayout { size, align },
    }
}

fn scalar(name: &str, ty: &str, mods: &[&str], size: u64) -> FieldSpec {
    field(name, 1, FieldShape::Scalar(ty.to_string()), mods, size, size)
}

fn record(fields: Vec<FieldSpec>) -> ItemSchema {
    ItemSchema { name: "Vertex".to_string(), location: at(0), body: ItemBody::NamedFields(fields) }
}

fn derive(item: &ItemSchema) -> (Derivation, Vec<Diagnostic>) {
    assert!(item.is_valid());
    let mut diags = Vec::new();
    let r = expand_vertex_format(item, BufferHandle { id: 7 }, &mut diags);
    (r, diags)
}

fn single(ty: &str, mods: &[&str], size: u64) -> (Derivation, Vec<Diagnostic>) {
    derive(&record(vec![scalar("a", ty, mods, size)]))
}

fn sample() -> ItemSchema {
    record(vec![
        field("pos", 1, FieldShape::FixedArray("f32".to_string(), 3), &[], 12, 4),
        field("color", 2, FieldShape::FixedArray("u8".to_string(), 4), &["normalized"], 4, 1),
        field("weight", 3, FieldShape::Scalar("f64".to_string()), &[], 8, 8),
        field("id", 4, FieldShape::Scalar("u16".to_string()), &[], 2, 2),
    ])
}

#[test]
fn one_descriptor_per_field_in_declaration_order() {
    let (r, diags) = derive(&sample());
    assert!(r.success);
    assert!(diags.is_empty());
    let names: Vec<&str> = r.descriptors.iter().map(|d| d.name.as_str()).collect();
    assert_eq!(names, vec!["pos", "color", "weight", "id"]);
    assert!(r.descriptors.iter().all(|d| d.buffer == BufferHandle { id: 7 }));
    assert_eq!(r.descriptors[0].element_count, ElementCount::Known(3));
    assert_eq!(r.descriptors[1].element_count, ElementCount::Known(4));
    assert_eq!(r.descriptors[2].element_count, ElementCount::Known(1));
    assert_eq!(
        r.descriptors[1].element_type,
        AttributeType::Int { mode: IntMode::Normalized, width: 8, signed: false }
    );
    assert_eq!(
        r.descriptors[2].element_type,
        AttributeType::Float { precision: FloatPrecision::Default, width: 64 }
    );
}

#[test]
fn descriptors_share_the_record_stride() {
    let (r, _) = derive(&sample());
    // 12 + 4 bytes, then 8 bytes at 16, then 2 bytes at 24; 26 rounded up to 8.
    assert!(r.descriptors.iter().all(|d| d.byte_stride == 32));
}

#[test]
fn offsets_follow_sequential_aligned_layout() {
    let (r, _) = derive(&sample());
    let offsets: Vec<u64> = r.descriptors.iter().map(|d| d.byte_offset).collect();
    assert_eq!(offsets, vec![0, 12, 16, 24]);
}

#[test]
fn padding_before_a_wider_field_and_at_the_end() {
    let item = record(vec![
        scalar("flag", "u8", &[], 1),
        scalar("count", "u32", &[], 4),
        scalar("tag", "u8", &[], 1),
    ]);
    let (r, _) = derive(&item);
    let offsets: Vec<u64> = r.descriptors.iter().map(|d| d.byte_offset).collect();
    assert_eq!(offsets, vec![0, 4, 8]);
    assert!(r.descriptors.iter().all(|d| d.byte_stride == 12));
}

#[test]
fn f32_without_modifier_is_default_float() {
    let (r, diags) = single("f32", &[], 4);
    assert_eq!(
        r.descriptors[0].element_type,
        AttributeType::Float { precision: FloatPrecision::Default, width: 32 }
    );
    assert!(diags.is_empty());
    assert!(r.success);
}

#[test]
fn f32_as_double_is_precise_float() {
    let (r, diags) = single("f32", &["as_double"], 4);
    assert_eq!(
        r.descriptors[0].element_type,
        AttributeType::Float { precision: FloatPrecision::Precise, width: 32 }
    );
    assert!(diags.is_empty());
}

#[test]
fn f32_normalized_is_poison_with_one_error() {
    let (r, diags) = single("f32", &["normalized"], 4);
    assert_eq!(r.descriptors[0].element_type, AttributeType::Poison);
    assert_eq!(diags.len(), 1);
    assert_eq!(diags[0].severity(), Severity::Error);
    assert_eq!(
        diags[0].kind,
        DiagnosticKind::IncompatibleModifier { modifier: Modifier::Normalized, family: TypeFamily::Float }
    );
    assert!(!r.success);
}

#[test]
fn i16_normalized_is_normalized_signed_int() {
    let (r, diags) = single("i16", &["normalized"], 2);
    assert_eq!(
        r.descriptors[0].element_type,
        AttributeType::Int { mode: IntMode::Normalized, width: 16, signed: true }
    );
    assert!(diags.is_empty());
}

#[test]
fn int_as_double_is_poison_with_one_error() {
    let (r, diags) = single("u32", &["as_double"], 4);
    assert_eq!(r.descriptors[0].element_type, AttributeType::Poison);
    assert_eq!(diags.len(), 1);
    assert_eq!(
        diags[0].kind,
        DiagnosticKind::IncompatibleModifier { modifier: Modifier::AsDouble, family: TypeFamily::Int }
    );
    assert!(!r.success);
}

#[test]
fn int_as_float_and_raw() {
    let (r, _) = single("u64", &["as_float"], 8);
    assert_eq!(
        r.descriptors[0].element_type,
        AttributeType::Int { mode: IntMode::AsFloat, width: 64, signed: false }
    );
    let (r, _) = single("i8", &[], 1);
    assert_eq!(r.descriptors[0].element_type, AttributeType::Int { mode: IntMode::Raw, width: 8, signed: true });
    let (r, _) = single("uint", &[], 8);
    assert_eq!(r.descriptors[0].element_type, AttributeType::Int { mode: IntMode::Raw, width: 64, signed: false });
    let (r, _) = single("int", &[], 8);
    assert_eq!(r.descriptors[0].element_type, AttributeType::Int { mode: IntMode::Raw, width: 64, signed: true });
}

#[test]
fn two_modifiers_give_one_warning_and_no_modifier() {
    let (r, diags) = single("f32", &["normalized", "as_float"], 4);
    assert_eq!(diags.len(), 1);
    assert_eq!(diags[0].severity(), Severity::Warning);
    assert_eq!(
        diags[0].kind,
        DiagnosticKind::ConflictingModifiers { discarded: Modifier::AsFloat, kept: Modifier::Normalized }
    );
    assert_eq!(
        r.descriptors[0].element_type,
        AttributeType::Float { precision: FloatPrecision::Default, width: 32 }
    );
    assert!(r.success);

    let (r, diags) = single("i16", &["normalized", "doc", "as_float"], 2);
    assert_eq!(diags.len(), 1);
    assert_eq!(r.descriptors[0].element_type, AttributeType::Int { mode: IntMode::Raw, width: 16, signed: true });
}

#[test]
fn modifier_after_a_conflict_is_selected_again() {
    let (r, diags) = single("f32", &["normalized", "as_float", "as_double"], 4);
    assert_eq!(diags.len(), 1);
    assert_eq!(
        r.descriptors[0].element_type,
        AttributeType::Float { precision: FloatPrecision::Precise, width: 32 }
    );
}

#[test]
fn unknown_keywords_are_ignored() {
    let (r, diags) = single("i32", &["inline", "Normalized", "as_float"], 4);
    assert!(diags.is_empty());
    assert_eq!(r.descriptors[0].element_type, AttributeType::Int { mode: IntMode::AsFloat, width: 32, signed: true });
}

#[test]
fn fixed_array_of_three_f32_as_float() {
    let item = record(vec![field("pos", 1, FieldShape::FixedArray("f32".to_string(), 3), &["as_float"], 12, 4)]);
    let (r, diags) = derive(&item);
    assert_eq!(r.descriptors[0].element_count, ElementCount::Known(3));
    assert_eq!(
        r.descriptors[0].element_type,
        AttributeType::Float { precision: FloatPrecision::Default, width: 32 }
    );
    assert!(diags.is_empty());
}

#[test]
fn unrecognized_type_poisons_only_its_field() {
    let item = record(vec![scalar("a", "bool", &[], 1), scalar("b", "f32", &[], 4)]);
    let (r, diags) = derive(&item);
    assert_eq!(r.descriptors.len(), 2);
    assert_eq!(r.descriptors[0].element_type, AttributeType::Poison);
    assert_eq!(r.descriptors[0].element_count, ElementCount::Known(1));
    assert_eq!(
        r.descriptors[1].element_type,
        AttributeType::Float { precision: FloatPrecision::Default, width: 32 }
    );
    assert_eq!(diags.len(), 1);
    assert_eq!(diags[0].kind, DiagnosticKind::UnrecognizedType { scalar_name: "bool".to_string() });
    assert_eq!(diags[0].location, at(1));
    assert!(!r.success);
}

#[test]
fn unsupported_shape_poisons_count_and_type() {
    let item = record(vec![
        field("next", 1, FieldShape::Unsupported("*const Vertex".to_string()), &[], 8, 8),
        field("w", 2, FieldShape::Scalar("f32".to_string()), &["normalized"], 4, 4),
    ]);
    let (r, diags) = derive(&item);
    assert_eq!(r.descriptors[0].element_count, ElementCount::Poison);
    assert_eq!(r.descriptors[0].element_type, AttributeType::Poison);
    assert_eq!(diags.len(), 2);
    assert_eq!(diags[0].kind, DiagnosticKind::UnsupportedShape { description: "*const Vertex".to_string() });
    assert_eq!(diags[1].location, at(2));
    assert_eq!(r.descriptors[1].byte_offset, 8);
    assert_eq!(r.descriptors[1].byte_stride, 16);
}

#[test]
fn non_record_input_fails_with_one_error() {
    let item = ItemSchema { name: "Mode".to_string(), location: at(9), body: ItemBody::Other };
    let (r, diags) = derive(&item);
    assert!(r.descriptors.is_empty());
    assert!(!r.success);
    assert_eq!(diags.len(), 1);
    assert_eq!(diags[0].severity(), Severity::Error);
    assert_eq!(diags[0].kind, DiagnosticKind::NotARecord { item_name: "Mode".to_string() });
    assert_eq!(diags[0].location, at(9));
}

#[test]
fn empty_record_gives_no_descriptors() {
    let (r, diags) = derive(&record(Vec::new()));
    assert!(r.descriptors.is_empty());
    assert!(r.success);
    assert!(diags.is_empty());
}

#[test]
fn diagnostics_are_appended_to_the_sink() {
    let mut diags = vec![Diagnostic {
        location: at(100),
        kind: DiagnosticKind::UnrecognizedType { scalar_name: "x".to_string() },
    }];
    let r = expand_vertex_format(&record(vec![scalar("a", "f32", &[], 4)]), BufferHandle { id: 1 }, &mut diags);
    assert!(r.success);
    assert_eq!(diags.len(), 1);
}

#[test]
fn invalid_layouts_are_detected() {
    assert!(!record(vec![field("a", 1, FieldShape::Scalar("f32".to_string()), &[], 4, 0)]).is_valid());
    assert!(!record(vec![
        field("a", 1, FieldShape::Scalar("u64".to_string()), &[], u64::MAX - 3, 8),
        field("b", 2, FieldShape::Scalar("u64".to_string()), &[], 8, 8),
    ])
    .is_valid());
    assert!(ItemSchema { name: "E".to_string(), location: at(0), body: ItemBody::Other }.is_valid());
}
