use vstd::prelude::*;

use crate::attrib::{decode_type, type_diagnostics, type_of, AttributeType};
use crate::diagnostic::{severity_of, Diagnostic, DiagnosticKind, Severity, SourceLocation};
use crate::layout::FieldLayout;
use crate::modifier::{
    conflict_warnings, find_modifier, lemma_two_modifiers_cancel, modifier_of, resolved_modifier,
};

verus! {

/// The declared type of a field.
#[derive(Clone, Debug, PartialEq, Eq)]
pub enum FieldShape {
    /// A single scalar, by its type name.
    Scalar(String),
    /// A fixed-length array of a scalar, by element type name and length.
    FixedArray(String, u64),
    /// Any other type (a nested record, a pointer, a slice), as written.
    Unsupported(String),
}

/// One field of a record, in declaration order.
#[derive(Clone, Debug, PartialEq, Eq)]
pub struct FieldSpec {
    pub name: String,
    pub location: SourceLocation,
    pub shape: FieldShape,
    /// The field's annotation keywords; those that name no modifier are ignored.
    pub modifiers: Vec<String>,
    /// Size and alignment of the field's type on the host.
    pub layout: FieldLayout,
}

/// What derivation is asked for: a record with named fields or some other item.
#[derive(Clone, Debug, PartialEq, Eq)]
pub enum ItemBody {
    NamedFields(Vec<FieldSpec>),
    Other,
}

/// An item declaration on which a vertex format is derived.
#[derive(Clone, Debug, PartialEq, Eq)]
pub struct ItemSchema {
    pub name: String,
    pub location: SourceLocation,
    pub body: ItemBody,
}

/// The number of components of an attribute.
#[derive(Clone, Copy, Debug, PartialEq, Eq, Structural)]
pub enum ElementCount {
    Known(u64),
    /// Derivation failed for this field.
    Poison,
}

/// The element count of a field of the given shape.
pub open spec fn count_of(shape: FieldShape) -> ElementCount {
    match shape {
        FieldShape::Scalar(_) => ElementCount::Known(1),
        FieldShape::FixedArray(_, n) => ElementCount::Known(n),
        FieldShape::Unsupported(_) => ElementCount::Poison,
    }
}

/// The attribute type of a field: its element type under its resolved modifier.
pub open spec fn field_type(f: FieldSpec) -> AttributeType {
    match f.shape {
        FieldShape::Scalar(name) => type_of(name@, resolved_modifier(f.modifiers@)),
        FieldShape::FixedArray(name, _) => type_of(name@, resolved_modifier(f.modifiers@)),
        FieldShape::Unsupported(_) => AttributeType::Poison,
    }
}

/// The diagnostics raised while decoding a field: modifier conflicts first,
/// then problems with its type.
pub open spec fn field_diagnostics(f: FieldSpec) -> Seq<Diagnostic> {
    conflict_warnings(f.modifiers@, f.location) + match f.shape {
        FieldShape::Scalar(name) => type_diagnostics(
            name,
            resolved_modifier(f.modifiers@),
            f.location,
        ),
        FieldShape::FixedArray(name, _) => type_diagnostics(
            name,
            resolved_modifier(f.modifiers@),
            f.location,
        ),
        FieldShape::Unsupported(description) => seq![
            Diagnostic {
                location: f.location,
                kind: DiagnosticKind::UnsupportedShape { description },
            },
        ],
    }
}

/// A field with exactly two modifier keywords, at `i` and `j`, is decoded as
/// if it had none, and of its diagnostics exactly one is a warning: the first,
/// which reports the conflict; any others are errors about its type.
pub proof fn lemma_conflicting_field(f: FieldSpec, i: int, j: int)
    requires
        0 <= i < j < f.modifiers@.len(),
        modifier_of(f.modifiers@[i]@) is Some,
        modifier_of(f.modifiers@[j]@) is Some,
        forall|k: int|
            0 <= k < f.modifiers@.len() && k != i && k != j ==> modifier_of(
                (#[trigger] f.modifiers@[k])@,
            ) is None,
    ensures
        resolved_modifier(f.modifiers@) is None,
        field_diagnostics(f).len() >= 1,
        field_diagnostics(f)[0] == (Diagnostic {
            location: f.location,
            kind: DiagnosticKind::ConflictingModifiers {
                discarded: modifier_of(f.modifiers@[j]@)->Some_0,
                kept: modifier_of(f.modifiers@[i]@)->Some_0,
            },
        }),
        forall|k: int|
            1 <= k < field_diagnostics(f).len() ==> severity_of(
                (#[trigger] field_diagnostics(f)[k]).kind,
            ) == Severity::Error,
{
    lemma_two_modifiers_cancel(f.modifiers@, f.location, i, j);
}

/// Decodes the element count and attribute type of a field.
pub fn decode_count_and_type(field: &FieldSpec, diagnostics: &mut Vec<Diagnostic>) -> (r: (
    ElementCount,
    AttributeType,
))
    ensures
        r.0 == count_of(field.shape),
        r.1 == field_type(*field),
        final(diagnostics)@ == old(diagnostics)@ + field_diagnostics(*field),
{
    let modifier = find_modifier(field.location, &field.modifiers, diagnostics);
    let ghost mid = diagnostics@;
    let r = match &field.shape {
        FieldShape::Scalar(name) => (
            ElementCount::Known(1),
            decode_type(field.location, name, modifier, diagnostics),
        ),
        FieldShape::FixedArray(name, n) => (
            ElementCount::Known(*n),
            decode_type(field.location, name, modifier, diagnostics),
        ),
        FieldShape::Unsupported(description) => {
            diagnostics.push(
                Diagnostic {
                    location: field.location,
                    kind: DiagnosticKind::UnsupportedShape { description: description.clone() },
                },
            );
            (ElementCount::Poison, AttributeType::Poison)
        },
    };
    assert(diagnostics@ =~= old(diagnostics)@ + field_diagnostics(*field));
    r
}

} // verus!
