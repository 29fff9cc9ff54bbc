//! Diagnostics of builder synthesis.

use vstd::prelude::*;

verus! {

/// The place in a declaration that a diagnostic points at.
///
/// Fields are counted from zero in declaration order, and the directives of
/// a field from zero in the order in which they are written.
#[derive(Clone, Copy, Debug, PartialEq, Eq)]
pub enum Location {
    /// The declaration as a whole.
    Declaration,
    /// One field of the declaration.
    Field { field: usize },
    /// One directive of one field.
    Directive { field: usize, directive: usize },
}

/// Why no builder can be synthesized for a declaration.
///
/// Synthesis stops at the first of these that it meets; it then yields no
/// builder at all, not one with the offending field left out.
#[derive(Clone, Copy, Debug, PartialEq, Eq)]
pub enum GenerationError {
    /// The declaration is not a single-variant record.
    NotARecord,
    /// The declaration is a single-variant type whose fields have no names.
    FieldsNotNamed,
    /// The type of the field with this index wraps one type argument under a
    /// name that is not a known wrapper.
    UnsupportedFieldType { field: usize },
    /// The directive with this index, on the field with this index, stands
    /// under the recognized key and is not of the form `builder(each = "...")`.
    MalformedDirective { field: usize, directive: usize },
}

impl GenerationError {
    /// The place that the diagnostic points at.
    pub open spec fn spec_location(self) -> Location {
        match self {
            GenerationError::NotARecord => Location::Declaration,
            GenerationError::FieldsNotNamed => Location::Declaration,
            GenerationError::UnsupportedFieldType { field } => Location::Field { field },
            GenerationError::MalformedDirective { field, directive } => Location::Directive {
                field,
                directive,
            },
        }
    }

    /// The text of the diagnostic.
    pub open spec fn spec_message(self) -> Seq<char> {
        match self {
            GenerationError::NotARecord => "Builder derive macro only supports struct"@,
            GenerationError::FieldsNotNamed => "Builder derive macro only supports named fields"@,
            GenerationError::UnsupportedFieldType { .. } => "unsupported field type"@,
            GenerationError::MalformedDirective { .. } => "expected `builder(each = \"...\")`"@,
        }
    }

    /// The place that the diagnostic points at.
    pub fn location(&self) -> (place: Location)
        ensures
            place == self.spec_location(),
    {
        match self {
            GenerationError::NotARecord => Location::Declaration,
            GenerationError::FieldsNotNamed => Location::Declaration,
            GenerationError::UnsupportedFieldType { field } => Location::Field { field: *field },
            GenerationError::MalformedDirective { field, directive } => Location::Directive {
                field: *field,
                directive: *directive,
            },
        }
    }

    /// The text of the diagnostic.
    pub fn message(&self) -> (text: String)
        ensures
            text@ == self.spec_message(),
    {
        match self {
            GenerationError::NotARecord => String::from_str(
                "Builder derive macro only supports struct",
            ),
            GenerationError::FieldsNotNamed => String::from_str(
                "Builder derive macro only supports named fields",
            ),
            GenerationError::UnsupportedFieldType { .. } => String::from_str(
                "unsupported field type",
            ),
            GenerationError::MalformedDirective { .. } => String::from_str(
                "expected `builder(each = \"...\")`",
            ),
        }
    }
}

/// A diagnostic as the host reports it: a text and the place it points at.
#[derive(Debug, PartialEq, Eq)]
pub struct Diagnostic {
    pub message: String,
    pub location: Location,
}

} // verus!
