use vstd::prelude::*;
use vstd::string::StringExecFns;

use crate::attrib::TypeFamily;
use crate::modifier::{keyword_of, Modifier};

verus! {

/// How serious a diagnostic is. Only errors make a derivation fail.
#[derive(Clone, Copy, Debug, PartialEq, Eq, Structural)]
pub enum Severity {
    Warning,
    Error,
}

/// Where in the record declaration a diagnostic originates.
#[derive(Clone, Copy, Debug, PartialEq, Eq, Structural)]
pub struct SourceLocation {
    pub line: u32,
    pub column: u32,
}

/// What a diagnostic reports.
#[derive(Clone, Debug, PartialEq, Eq)]
pub enum DiagnosticKind {
    /// A second modifier keyword was found on a field; both are dropped.
    ConflictingModifiers { discarded: Modifier, kept: Modifier },
    /// The modifier does not apply to the field's type family.
    IncompatibleModifier { modifier: Modifier, family: TypeFamily },
    /// The scalar type name is not one of the recognized component types.
    UnrecognizedType { scalar_name: String },
    /// The field's type is neither a scalar nor a fixed array of scalars.
    UnsupportedShape { description: String },
    /// Derivation was asked for an item that is not a record with named fields.
    NotARecord { item_name: String },
}

/// One message handed to the diagnostic sink.
#[derive(Clone, Debug, PartialEq, Eq)]
pub struct Diagnostic {
    pub location: SourceLocation,
    pub kind: DiagnosticKind,
}

/// The severity that belongs to each kind of diagnostic.
pub open spec fn severity_of(kind: DiagnosticKind) -> Severity {
    match kind {
        DiagnosticKind::ConflictingModifiers { .. } => Severity::Warning,
        _ => Severity::Error,
    }
}

/// The family's name as it appears in messages.
pub open spec fn family_word(family: TypeFamily) -> Seq<char> {
    match family {
        TypeFamily::Float => "float"@,
        TypeFamily::Int => "int"@,
    }
}

/// The text of a diagnostic.
pub open spec fn message_of(kind: DiagnosticKind) -> Seq<char> {
    match kind {
        DiagnosticKind::ConflictingModifiers { discarded, kept } => "Extra attribute modifier detected: `#["@
            + keyword_of(discarded) + "]` - ignoring it and `#["@ + keyword_of(kept) + "]`."@,
        DiagnosticKind::IncompatibleModifier { modifier, family } => "Incompatible "@ + family_word(
            family,
        ) + " modifier attribute: `#["@ + keyword_of(modifier) + "]`"@,
        DiagnosticKind::UnrecognizedType { scalar_name } => "Unrecognized component type: `"@
            + scalar_name@ + "`"@,
        DiagnosticKind::UnsupportedShape { description } => "Unsupported attribute type: `"@
            + description@ + "`"@,
        DiagnosticKind::NotARecord { item_name } => "Unable to derive a vertex format for `"@
            + item_name@ + "`: not a structure with named fields"@,
    }
}

/// Whether some diagnostic of `ds` is an error.
pub open spec fn has_error(ds: Seq<Diagnostic>) -> bool {
    exists|i: int| 0 <= i < ds.len() && severity_of(#[trigger] ds[i].kind) == Severity::Error
}

impl Diagnostic {
    pub fn severity(&self) -> (r: Severity)
        ensures
            r == severity_of(self.kind),
    {
        match &self.kind {
            DiagnosticKind::ConflictingModifiers { .. } => Severity::Warning,
            _ => Severity::Error,
        }
    }

    /// The human-readable text of this diagnostic.
    pub fn message(&self) -> (r: String)
        ensures
            r@ == message_of(self.kind),
    {
        match &self.kind {
            DiagnosticKind::ConflictingModifiers { discarded, kept } => {
                let mut s = String::from_str("Extra attribute modifier detected: `#[");
                s.append(discarded.keyword());
                s.append("]` - ignoring it and `#[");
                s.append(kept.keyword());
                s.append("]`.");
                s
            },
            DiagnosticKind::IncompatibleModifier { modifier, family } => {
                let mut s = String::from_str("Incompatible ");
                match family {
                    TypeFamily::Float => s.append("float"),
                    TypeFamily::Int => s.append("int"),
                }
                s.append(" modifier attribute: `#[");
                s.append(modifier.keyword());
                s.append("]`");
                s
            },
            DiagnosticKind::UnrecognizedType { scalar_name } => {
                let mut s = String::from_str("Unrecognized component type: `");
                s.append(scalar_name.as_str());
                s.append("`");
                s
            },
            DiagnosticKind::UnsupportedShape { description } => {
                let mut s = String::from_str("Unsupported attribute type: `");
                s.append(description.as_str());
                s.append("`");
                s
            },
            DiagnosticKind::NotARecord { item_name } => {
                let mut s = String::from_str("Unable to derive a vertex format for `");
                s.append(item_name.as_str());
                s.append("`: not a structure with named fields");
                s
            },
        }
    }
}

/// Whether some diagnostic of `ds` from index `from` on is an error.
pub fn any_error_from(ds: &Vec<Diagnostic>, from: usize) -> (r: bool)
    requires
        from <= ds@.len(),
    ensures
        r == has_error(ds@.subrange(from as int, ds@.len() as int)),
{
    let ghost tail = ds@.subrange(from as int, ds@.len() as int);
    let mut i: usize = from;
    while i < ds.len()
        invariant
            from <= i <= ds@.len(),
            tail == ds@.subrange(from as int, ds@.len() as int),
            forall|k: int| from <= k < i ==> severity_of(#[trigger] ds@[k].kind) == Severity::Warning,
        decreases ds@.len() - i,
    {
        match ds[i].severity() {
            Severity::Error => {
                assert(tail[i - from] == ds@[i as int]);
                return true;
            },
            Severity::Warning => {},
        }
        i = i + 1;
    }
    assert forall|k: int| 0 <= k < tail.len() implies severity_of(#[trigger] tail[k].kind)
        != Severity::Error by {
        assert(tail[k] == ds@[from + k]);
    }
    false
}

} // verus!
