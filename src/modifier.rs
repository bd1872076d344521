use vstd::prelude::*;

use crate::diagnostic::{Diagnostic, DiagnosticKind, SourceLocation};
use crate::text::str_equals;

verus! {

/// An interpretation modifier that may be attached to a field.
#[derive(Clone, Copy, Debug, PartialEq, Eq, Structural)]
pub enum Modifier {
    /// `normalized`: integers are normalized at runtime, unsigned ones to
    /// `[0, 1]` and signed ones to `[-1, 1]`.
    Normalized,
    /// `as_float`: the component is converted to a single precision float.
    AsFloat,
    /// `as_double`: the component is converted to a double precision float.
    AsDouble,
}

/// The keyword that selects a modifier.
pub open spec fn keyword_of(m: Modifier) -> Seq<char> {
    match m {
        Modifier::Normalized => "normalized"@,
        Modifier::AsFloat => "as_float"@,
        Modifier::AsDouble => "as_double"@,
    }
}

/// The modifier that a keyword selects, if any.
pub open spec fn modifier_of(k: Seq<char>) -> Option<Modifier> {
    if k == "normalized"@ {
        Some(Modifier::Normalized)
    } else if k == "as_float"@ {
        Some(Modifier::AsFloat)
    } else if k == "as_double"@ {
        Some(Modifier::AsDouble)
    } else {
        None
    }
}

impl Modifier {
    /// The keyword of this modifier, as written on a field.
    pub fn keyword(&self) -> (r: &'static str)
        ensures
            r@ == keyword_of(*self),
    {
        match self {
            Modifier::Normalized => "normalized",
            Modifier::AsFloat => "as_float",
            Modifier::AsDouble => "as_double",
        }
    }

    /// Looks a keyword up; keywords that name no modifier give `None`.
    pub fn from_keyword(k: &str) -> (r: Option<Modifier>)
        ensures
            r == modifier_of(k@),
    {
        if str_equals(k, "normalized") {
            Some(Modifier::Normalized)
        } else if str_equals(k, "as_float") {
            Some(Modifier::AsFloat)
        } else if str_equals(k, "as_double") {
            Some(Modifier::AsDouble)
        } else {
            None
        }
    }
}

/// The keyword table is a bijection: each modifier's keyword selects that
/// modifier again.
pub proof fn lemma_keyword_round_trip(m: Modifier)
    ensures
        modifier_of(keyword_of(m)) == Some(m),
{
    reveal_strlit("normalized");
    reveal_strlit("as_float");
    reveal_strlit("as_double");
    match m {
        Modifier::Normalized => {},
        Modifier::AsFloat => {
            assert("as_float"@ != "normalized"@) by {
                assert("as_float"@[0] != "normalized"@[0]);
            }
        },
        Modifier::AsDouble => {
            assert("as_double"@ != "normalized"@) by {
                assert("as_double"@[0] != "normalized"@[0]);
            }
            assert("as_double"@ != "as_float"@) by {
                assert("as_double"@.len() != "as_float"@.len());
            }
        },
    }
}

/// One step of the scan over a field's keywords: the first modifier found is
/// selected; a second one clears the selection; other keywords change nothing.
pub open spec fn resolve_step(current: Option<Modifier>, keyword: Seq<char>) -> Option<Modifier> {
    match modifier_of(keyword) {
        None => current,
        Some(m) => match current {
            None => Some(m),
            Some(_) => None,
        },
    }
}

/// The modifier selected by a scan over `keywords` in order.
pub open spec fn resolved_modifier(keywords: Seq<String>) -> Option<Modifier>
    decreases keywords.len(),
{
    if keywords.len() == 0 {
        None
    } else {
        resolve_step(resolved_modifier(keywords.drop_last()), keywords.last()@)
    }
}

/// The warnings emitted by that scan: one for each modifier keyword met while
/// another modifier is selected.
pub open spec fn conflict_warnings(keywords: Seq<String>, location: SourceLocation) -> Seq<
    Diagnostic,
>
    decreases keywords.len(),
{
    if keywords.len() == 0 {
        Seq::empty()
    } else {
        let earlier = conflict_warnings(keywords.drop_last(), location);
        match (modifier_of(keywords.last()@), resolved_modifier(keywords.drop_last())) {
            (Some(discarded), Some(kept)) => earlier.push(
                Diagnostic {
                    location,
                    kind: DiagnosticKind::ConflictingModifiers { discarded, kept },
                },
            ),
            _ => earlier,
        }
    }
}

/// A field with exactly two modifier keywords, at `i` and `j`, among any
/// number of other keywords, resolves to no modifier at all and gets exactly
/// one warning, which names the second keyword as discarded and the first as
/// kept.
pub proof fn lemma_two_modifiers_cancel(
    keywords: Seq<String>,
    location: SourceLocation,
    i: int,
    j: int,
)
    requires
        0 <= i < j < keywords.len(),
        modifier_of(keywords[i]@) is Some,
        modifier_of(keywords[j]@) is Some,
        forall|k: int|
            0 <= k < keywords.len() && k != i && k != j ==> modifier_of(
                (#[trigger] keywords[k])@,
            ) is None,
    ensures
        resolved_modifier(keywords) == None::<Modifier>,
        conflict_warnings(keywords, location) == seq![
            Diagnostic {
                location,
                kind: DiagnosticKind::ConflictingModifiers {
                    discarded: modifier_of(keywords[j]@)->Some_0,
                    kept: modifier_of(keywords[i]@)->Some_0,
                },
            },
        ],
{
    lemma_two_modifiers_prefix(keywords, location, i, j, keywords.len() as int);
    assert(keywords.subrange(0, keywords.len() as int) =~= keywords);
}

proof fn lemma_two_modifiers_prefix(
    keywords: Seq<String>,
    location: SourceLocation,
    i: int,
    j: int,
    n: int,
)
    requires
        0 <= i < j < keywords.len(),
        0 <= n <= keywords.len(),
        modifier_of(keywords[i]@) is Some,
        modifier_of(keywords[j]@) is Some,
        forall|k: int|
            0 <= k < keywords.len() && k != i && k != j ==> modifier_of(
                (#[trigger] keywords[k])@,
            ) is None,
    ensures
        resolved_modifier(keywords.subrange(0, n)) == (if i < n <= j {
            modifier_of(keywords[i]@)
        } else {
            None::<Modifier>
        }),
        conflict_warnings(keywords.subrange(0, n), location) == (if n <= j {
            Seq::<Diagnostic>::empty()
        } else {
            seq![
                Diagnostic {
                    location,
                    kind: DiagnosticKind::ConflictingModifiers {
                        discarded: modifier_of(keywords[j]@)->Some_0,
                        kept: modifier_of(keywords[i]@)->Some_0,
                    },
                },
            ]
        }),
    decreases n,
{
    if n > 0 {
        lemma_two_modifiers_prefix(keywords, location, i, j, n - 1);
        let prefix = keywords.subrange(0, n);
        assert(prefix.drop_last() =~= keywords.subrange(0, n - 1));
        assert(prefix.last() == keywords[n - 1]);
    } else {
        assert(keywords.subrange(0, 0) =~= Seq::<String>::empty());
    }
}

/// Scans a field's annotation keywords for an interpretation modifier.
///
/// A second modifier keyword is reported as a warning and resolves the field
/// to no modifier at all, rather than to the first one.
pub fn find_modifier(
    location: SourceLocation,
    keywords: &Vec<String>,
    diagnostics: &mut Vec<Diagnostic>,
) -> (r: Option<Modifier>)
    ensures
        r == resolved_modifier(keywords@),
        final(diagnostics)@ == old(diagnostics)@ + conflict_warnings(keywords@, location),
{
    let mut current: Option<Modifier> = None;
    let mut i: usize = 0;
    assert(keywords@.subrange(0, 0) =~= Seq::<String>::empty());
    assert(old(diagnostics)@ =~= old(diagnostics)@ + Seq::<Diagnostic>::empty());
    while i < keywords.len()
        invariant
            i <= keywords@.len(),
            current == resolved_modifier(keywords@.subrange(0, i as int)),
            diagnostics@ == old(diagnostics)@ + conflict_warnings(
                keywords@.subrange(0, i as int),
                location,
            ),
        decreases keywords@.len() - i,
    {
        let ghost prefix = keywords@.subrange(0, i + 1);
        assert(prefix.drop_last() =~= keywords@.subrange(0, i as int));
        assert(prefix.last() == keywords@[i as int]);
        match Modifier::from_keyword(keywords[i].as_str()) {
            None => {},
            Some(found) => match current {
                None => {
                    current = Some(found);
                },
                Some(kept) => {
                    diagnostics.push(
                        Diagnostic {
                            location,
                            kind: DiagnosticKind::ConflictingModifiers { discarded: found, kept },
                        },
                    );
                    current = None;
                },
            },
        }
        i = i + 1;
        assert(diagnostics@ =~= old(diagnostics)@ + conflict_warnings(prefix, location));
    }
    assert(keywords@.subrange(0, i as int) =~= keywords@);
    current
}

} // verus!
