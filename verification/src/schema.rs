//! The schema extractor: from a declaration to the ordered fields of a record.

use vstd::prelude::*;
use crate::declaration::{Declaration, DeclarationBody, FieldDescriptor, Fields};
use crate::error::GenerationError;

verus! {

/// The fields of a record in declaration order, under the record's name.
///
/// The order is significant: it is the order of the builder's slots and the
/// order in which finalize looks for missing values.
#[derive(Debug, PartialEq, Eq)]
pub struct RecordSchema<'a> {
    pub name: &'a str,
    pub fields: &'a Vec<FieldDescriptor>,
}

/// Whether no two of the fields share a name.
pub open spec fn names_unique(fields: Seq<FieldDescriptor>) -> bool {
    forall|i: int, j: int|
        0 <= i < j < fields.len() ==> (#[trigger] fields[i]).name@ != (#[trigger] fields[j]).name@
}

/// Why no schema can be extracted from a declaration, if there is a reason:
/// a declaration with several variants, or none that is a record, is not a
/// record; a record with positional fields, or with none, has no named fields.
pub open spec fn extraction_error(declaration: &Declaration) -> Option<GenerationError> {
    match declaration.body {
        DeclarationBody::Struct(Fields::Named(_)) => None,
        DeclarationBody::Struct(_) => Some(GenerationError::FieldsNotNamed),
        _ => Some(GenerationError::NotARecord),
    }
}

impl<'a> RecordSchema<'a> {
    /// The invariant of a schema: field names are unique.
    pub open spec fn well_formed(&self) -> bool {
        names_unique(self.fields@)
    }

    /// Whether the schema is that of the declaration: the same name and the
    /// same fields in the same order, directives included as they stand.
    pub open spec fn is_schema_of(&self, declaration: &Declaration) -> bool {
        &&& self.name@ == declaration.name@
        &&& declaration.body == DeclarationBody::Struct(Fields::Named(*self.fields))
    }

    /// Tells whether field names are unique.
    pub fn has_unique_names(&self) -> (unique: bool)
        ensures
            unique == self.well_formed(),
    {
        let fields = self.fields;
        let mut j: usize = 0;
        while j < fields.len()
            invariant
                fields == self.fields,
                j <= fields.len(),
                forall|a: int, b: int|
                    0 <= a < b < j ==> (#[trigger] fields@[a]).name@ != (#[trigger] fields@[b]).name@,
            decreases fields.len() - j,
        {
            let mut i: usize = 0;
            while i < j
                invariant
                    fields == self.fields,
                    i <= j < fields.len(),
                    forall|a: int| 0 <= a < i ==> (#[trigger] fields@[a]).name@ != fields@[j as int].name@,
                decreases j - i,
            {
                if fields[i].name == fields[j].name {
                    assert(fields@[i as int].name@ == fields@[j as int].name@);
                    return false;
                }
                i += 1;
            }
            j += 1;
        }
        true
    }
}

/// Extracts the schema of a declaration.
///
/// A declaration whose field names are unique gives a well-formed schema. The
/// extractor does not look for duplicates itself: a host that cannot vouch for
/// its declarations asks `has_unique_names`.
pub fn extract_schema<'a>(declaration: &'a Declaration) -> (outcome: Result<
    RecordSchema<'a>,
    GenerationError,
>)
    ensures
        (match outcome {
            Ok(schema) => {
                &&& extraction_error(declaration) is None
                &&& schema.is_schema_of(declaration)
                &&& schema.fields@ == declaration.named_fields()
                &&& names_unique(declaration.named_fields()) ==> schema.well_formed()
            },
            Err(error) => extraction_error(declaration) == Some(error),
        }),
{
    match &declaration.body {
        DeclarationBody::Struct(Fields::Named(fields)) => Ok(
            RecordSchema { name: declaration.name.as_str(), fields },
        ),
        DeclarationBody::Struct(_) => Err(GenerationError::FieldsNotNamed),
        _ => Err(GenerationError::NotARecord),
    }
}

} // verus!
