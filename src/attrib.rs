use vstd::prelude::*;

use crate::diagnostic::{Diagnostic, DiagnosticKind, SourceLocation};
use crate::modifier::Modifier;
use crate::text::str_equals;

verus! {

/// The two families of scalar component types.
#[derive(Clone, Copy, Debug, PartialEq, Eq, Structural)]
pub enum TypeFamily {
    Float,
    Int,
}

/// Width in bits given to the platform-native integer types `int` and `uint`.
pub const NATIVE_INT_BITS: u32 = 64;

/// A recognized scalar component type.
#[derive(Clone, Copy, Debug, PartialEq, Eq, Structural)]
pub enum ScalarType {
    Float { width: u32 },
    Int { width: u32, signed: bool },
}

/// How a floating-point component is handed to the pipeline.
#[derive(Clone, Copy, Debug, PartialEq, Eq, Structural)]
pub enum FloatPrecision {
    Default,
    Precise,
}

/// How an integer component is handed to the pipeline.
#[derive(Clone, Copy, Debug, PartialEq, Eq, Structural)]
pub enum IntMode {
    Raw,
    Normalized,
    AsFloat,
}

/// The numeric interpretation of one attribute component.
#[derive(Clone, Copy, Debug, PartialEq, Eq, Structural)]
pub enum AttributeType {
    Float { precision: FloatPrecision, width: u32 },
    Int { mode: IntMode, width: u32, signed: bool },
    /// Derivation failed for this field.
    Poison,
}

/// The scalar type that a type name denotes, if it is recognized.
pub open spec fn scalar_of(name: Seq<char>) -> Option<ScalarType> {
    if name == "f32"@ {
        Some(ScalarType::Float { width: 32 })
    } else if name == "f64"@ {
        Some(ScalarType::Float { width: 64 })
    } else if name == "u8"@ {
        Some(ScalarType::Int { width: 8, signed: false })
    } else if name == "u16"@ {
        Some(ScalarType::Int { width: 16, signed: false })
    } else if name == "u32"@ {
        Some(ScalarType::Int { width: 32, signed: false })
    } else if name == "u64"@ {
        Some(ScalarType::Int { width: 64, signed: false })
    } else if name == "uint"@ {
        Some(ScalarType::Int { width: NATIVE_INT_BITS, signed: false })
    } else if name == "i8"@ {
        Some(ScalarType::Int { width: 8, signed: true })
    } else if name == "i16"@ {
        Some(ScalarType::Int { width: 16, signed: true })
    } else if name == "i32"@ {
        Some(ScalarType::Int { width: 32, signed: true })
    } else if name == "i64"@ {
        Some(ScalarType::Int { width: 64, signed: true })
    } else if name == "int"@ {
        Some(ScalarType::Int { width: NATIVE_INT_BITS, signed: true })
    } else {
        None
    }
}

/// The family of a scalar type.
pub open spec fn family_of(s: ScalarType) -> TypeFamily {
    match s {
        ScalarType::Float { .. } => TypeFamily::Float,
        ScalarType::Int { .. } => TypeFamily::Int,
    }
}

/// Whether a modifier may be applied to a scalar type: `normalized` is for
/// integers only and `as_double` for floats only.
pub open spec fn modifier_fits(s: ScalarType, m: Modifier) -> bool {
    match (s, m) {
        (ScalarType::Float { .. }, Modifier::Normalized) => false,
        (ScalarType::Int { .. }, Modifier::AsDouble) => false,
        _ => true,
    }
}

/// The attribute type of a recognized scalar under an optional modifier.
pub open spec fn classify(s: ScalarType, m: Option<Modifier>) -> AttributeType {
    match s {
        ScalarType::Float { width } => match m {
            None | Some(Modifier::AsFloat) => AttributeType::Float {
                precision: FloatPrecision::Default,
                width,
            },
            Some(Modifier::AsDouble) => AttributeType::Float {
                precision: FloatPrecision::Precise,
                width,
            },
            Some(Modifier::Normalized) => AttributeType::Poison,
        },
        ScalarType::Int { width, signed } => match m {
            None => AttributeType::Int { mode: IntMode::Raw, width, signed },
            Some(Modifier::Normalized) => AttributeType::Int {
                mode: IntMode::Normalized,
                width,
                signed,
            },
            Some(Modifier::AsFloat) => AttributeType::Int { mode: IntMode::AsFloat, width, signed },
            Some(Modifier::AsDouble) => AttributeType::Poison,
        },
    }
}

/// The attribute type of a scalar type name under an optional modifier.
pub open spec fn type_of(name: Seq<char>, m: Option<Modifier>) -> AttributeType {
    match scalar_of(name) {
        None => AttributeType::Poison,
        Some(s) => classify(s, m),
    }
}

/// The diagnostics raised while classifying a scalar type name.
pub open spec fn type_diagnostics(
    name: String,
    m: Option<Modifier>,
    location: SourceLocation,
) -> Seq<Diagnostic> {
    match scalar_of(name@) {
        None => seq![
            Diagnostic { location, kind: DiagnosticKind::UnrecognizedType { scalar_name: name } },
        ],
        Some(s) => match m {
            Some(modifier) if !modifier_fits(s, modifier) => seq![
                Diagnostic {
                    location,
                    kind: DiagnosticKind::IncompatibleModifier { modifier, family: family_of(s) },
                },
            ],
            _ => Seq::empty(),
        },
    }
}

impl ScalarType {
    /// Looks a scalar type name up in the table of recognized component types.
    pub fn from_name(name: &str) -> (r: Option<ScalarType>)
        ensures
            r == scalar_of(name@),
    {
        if str_equals(name, "f32") {
            Some(ScalarType::Float { width: 32 })
        } else if str_equals(name, "f64") {
            Some(ScalarType::Float { width: 64 })
        } else if str_equals(name, "u8") {
            Some(ScalarType::Int { width: 8, signed: false })
        } else if str_equals(name, "u16") {
            Some(ScalarType::Int { width: 16, signed: false })
        } else if str_equals(name, "u32") {
            Some(ScalarType::Int { width: 32, signed: false })
        } else if str_equals(name, "u64") {
            Some(ScalarType::Int { width: 64, signed: false })
        } else if str_equals(name, "uint") {
            Some(ScalarType::Int { width: NATIVE_INT_BITS, signed: false })
        } else if str_equals(name, "i8") {
            Some(ScalarType::Int { width: 8, signed: true })
        } else if str_equals(name, "i16") {
            Some(ScalarType::Int { width: 16, signed: true })
        } else if str_equals(name, "i32") {
            Some(ScalarType::Int { width: 32, signed: true })
        } else if str_equals(name, "i64") {
            Some(ScalarType::Int { width: 64, signed: true })
        } else if str_equals(name, "int") {
            Some(ScalarType::Int { width: NATIVE_INT_BITS, signed: true })
        } else {
            None
        }
    }
}

/// Finds the attribute type that describes a scalar type name under an
/// optional modifier. An unrecognized name, or a modifier that does not fit
/// the type's family, gives `Poison` and an error.
pub fn decode_type(
    location: SourceLocation,
    name: &String,
    modifier: Option<Modifier>,
    diagnostics: &mut Vec<Diagnostic>,
) -> (r: AttributeType)
    ensures
        r == type_of(name@, modifier),
        final(diagnostics)@ == old(diagnostics)@ + type_diagnostics(*name, modifier, location),
{
    match ScalarType::from_name(name.as_str()) {
        None => {
            diagnostics.push(
                Diagnostic {
                    location,
                    kind: DiagnosticKind::UnrecognizedType { scalar_name: name.clone() },
                },
            );
            assert(diagnostics@ =~= old(diagnostics)@ + type_diagnostics(
                *name,
                modifier,
                location,
            ));
            AttributeType::Poison
        },
        Some(ScalarType::Float { width }) => match modifier {
            None | Some(Modifier::AsFloat) => {
                assert(diagnostics@ =~= old(diagnostics)@ + type_diagnostics(
                    *name,
                    modifier,
                    location,
                ));
                AttributeType::Float { precision: FloatPrecision::Default, width }
            },
            Some(Modifier::AsDouble) => {
                assert(diagnostics@ =~= old(diagnostics)@ + type_diagnostics(
                    *name,
                    modifier,
                    location,
                ));
                AttributeType::Float { precision: FloatPrecision::Precise, width }
            },
            Some(Modifier::Normalized) => {
                diagnostics.push(
                    Diagnostic {
                        location,
                        kind: DiagnosticKind::IncompatibleModifier {
                            modifier: Modifier::Normalized,
                            family: TypeFamily::Float,
                        },
                    },
                );
                assert(diagnostics@ =~= old(diagnostics)@ + type_diagnostics(
                    *name,
                    modifier,
                    location,
                ));
                AttributeType::Poison
            },
        },
        Some(ScalarType::Int { width, signed }) => {
            let mode = match modifier {
                None => IntMode::Raw,
                Some(Modifier::Normalized) => IntMode::Normalized,
                Some(Modifier::AsFloat) => IntMode::AsFloat,
                Some(Modifier::AsDouble) => {
                    diagnostics.push(
                        Diagnostic {
                            location,
                            kind: DiagnosticKind::IncompatibleModifier {
                                modifier: Modifier::AsDouble,
                                family: TypeFamily::Int,
                            },
                        },
                    );
                    assert(diagnostics@ =~= old(diagnostics)@ + type_diagnostics(
                        *name,
                        modifier,
                        location,
                    ));
                    return AttributeType::Poison;
                },
            };
            assert(diagnostics@ =~= old(diagnostics)@ + type_diagnostics(
                *name,
                modifier,
                location,
            ));
            AttributeType::Int { mode, width, signed }
        },
    }
}

} // verus!
