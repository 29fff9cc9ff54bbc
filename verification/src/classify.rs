//! The field classifier: from a field's declared type and directives to the
//! way its builder slot is kept, set and finalized.
//!
//! Classification looks at one field at a time. It never depends on where the
//! field stands in the record nor on any other field.

use vstd::prelude::*;
use crate::declaration::{FieldDescriptor, GenericArgument, PathArguments, TypeForm, TypeSyntax};
use crate::directive::{each_directive, get_builder_each};
use crate::error::GenerationError;

verus! {

/// The two wrappers that classification knows by name.
#[derive(Clone, Copy, Debug, PartialEq, Eq)]
pub enum WrapperKind {
    /// "Present or absent": a type written `Option<T>`.
    Optional,
    /// A homogeneous ordered container: a type written `Vec<T>`.
    List,
}

/// What a declared type looks like to the classifier.
#[derive(Debug, PartialEq, Eq)]
pub enum TypeShape<'a> {
    /// A known wrapper around exactly one type argument.
    Wrapped { kind: WrapperKind, inner: &'a TypeSyntax },
    /// Any other type, taken at face value.
    Plain(&'a TypeSyntax),
    /// Exactly one type argument under a name that is not a known wrapper.
    Unsupported,
}

/// The type argument that a declared type wraps under its leading name:
/// `Some` exactly when the type is a path whose first segment has, between
/// angle brackets, one argument, and that argument is a type.
pub open spec fn sole_type_argument(ty: &TypeSyntax) -> Option<(Seq<char>, TypeSyntax)> {
    match ty.form {
        TypeForm::Path(path) => if path.segments@.len() > 0 {
            match path.segments@[0].arguments {
                PathArguments::AngleBracketed(args) => if args@.len() == 1 {
                    match args@[0] {
                        GenericArgument::Type(inner) => Some((path.segments@[0].ident@, inner)),
                        GenericArgument::Other => None,
                    }
                } else {
                    None
                },
                _ => None,
            }
        } else {
            None
        },
        TypeForm::Other => None,
    }
}

/// The shape of a declared type.
///
/// One type argument under `Vec` or `Option` is a wrapper; one type argument
/// under any other name is unsupported; every other type (no argument, several
/// arguments, a lifetime for its one argument, no path at all) is plain.
pub open spec fn type_shape<'a>(ty: &'a TypeSyntax) -> TypeShape<'a> {
    match sole_type_argument(ty) {
        Some((name, inner)) => if name == "Vec"@ {
            TypeShape::Wrapped { kind: WrapperKind::List, inner: &inner }
        } else if name == "Option"@ {
            TypeShape::Wrapped { kind: WrapperKind::Optional, inner: &inner }
        } else {
            TypeShape::Unsupported
        },
        None => TypeShape::Plain(ty),
    }
}

/// The known wrapper that a declared type is, if it is one.
pub open spec fn wrapper_kind(ty: &TypeSyntax) -> Option<WrapperKind> {
    match type_shape(ty) {
        TypeShape::Wrapped { kind, .. } => Some(kind),
        _ => None,
    }
}

/// Classifies a declared type by its shape.
pub fn check_field_type<'a>(ty: &'a TypeSyntax) -> (shape: TypeShape<'a>)
    ensures
        shape == type_shape(ty),
{
    if let TypeForm::Path(path) = &ty.form {
        let segments = &path.segments;
        if segments.len() > 0 {
            if let PathArguments::AngleBracketed(args) = &segments[0].arguments {
                if args.len() == 1 {
                    if let GenericArgument::Type(inner) = &args[0] {
                        let list = String::from_str("Vec");
                        let optional = String::from_str("Option");
                        return if segments[0].ident == list {
                            TypeShape::Wrapped { kind: WrapperKind::List, inner }
                        } else if segments[0].ident == optional {
                            TypeShape::Wrapped { kind: WrapperKind::Optional, inner }
                        } else {
                            TypeShape::Unsupported
                        };
                    }
                }
            }
        }
    }
    TypeShape::Plain(ty)
}

/// How the builder keeps, sets and finalizes one field.
#[derive(Debug, PartialEq, Eq)]
pub enum FieldStrategy<'a> {
    /// The slot holds an optional `inner`, absent at first. Finalize always
    /// succeeds for the field and yields what the slot holds.
    OptionalSlot { inner: &'a TypeSyntax },
    /// The slot holds a growing sequence of `element`, empty at first, and
    /// the setter `each` appends one element. Finalize always succeeds for
    /// the field and yields the sequence.
    AccumulatingSlot { element: &'a TypeSyntax, each: &'a str },
    /// The slot holds an optional `ty`, absent at first. Finalize fails while
    /// it is absent.
    RequiredSlot { ty: &'a TypeSyntax },
}

/// A strategy with its names as sequences of characters.
pub enum StrategyModel {
    OptionalSlot { inner: TypeSyntax },
    AccumulatingSlot { element: TypeSyntax, each: Seq<char> },
    RequiredSlot { ty: TypeSyntax },
}

impl<'a> View for FieldStrategy<'a> {
    type V = StrategyModel;

    open spec fn view(&self) -> StrategyModel {
        match *self {
            FieldStrategy::OptionalSlot { inner } => StrategyModel::OptionalSlot { inner: *inner },
            FieldStrategy::AccumulatingSlot { element, each } => StrategyModel::AccumulatingSlot {
                element: *element,
                each: each@,
            },
            FieldStrategy::RequiredSlot { ty } => StrategyModel::RequiredSlot { ty: *ty },
        }
    }
}

/// The strategy of the field with index `index`, or the error that stops
/// synthesis at it.
///
/// An optional field ignores its directives, and so does a plain one: only a
/// list field has them validated. A list field without an element setter is
/// a required field that takes the whole list at once.
pub open spec fn strategy_of(field: &FieldDescriptor, index: usize) -> Result<
    StrategyModel,
    GenerationError,
> {
    match type_shape(&field.declared_type) {
        TypeShape::Wrapped { kind: WrapperKind::Optional, inner } => Ok(
            StrategyModel::OptionalSlot { inner: *inner },
        ),
        TypeShape::Wrapped { kind: WrapperKind::List, inner } => match each_directive(
            field.directives@,
            index,
        ) {
            Ok(Some(each)) => Ok(StrategyModel::AccumulatingSlot { element: *inner, each }),
            Ok(None) => Ok(StrategyModel::RequiredSlot { ty: field.declared_type }),
            Err(error) => Err(error),
        },
        TypeShape::Plain(ty) => Ok(StrategyModel::RequiredSlot { ty: *ty }),
        TypeShape::Unsupported => Err(GenerationError::UnsupportedFieldType { field: index }),
    }
}

/// The view of what `classify_field` returns.
pub open spec fn strategy_view(outcome: Result<FieldStrategy, GenerationError>) -> Result<
    StrategyModel,
    GenerationError,
> {
    match outcome {
        Ok(strategy) => Ok(strategy@),
        Err(error) => Err(error),
    }
}

/// Assigns the field with index `index` its one strategy.
pub fn classify_field<'a>(field: &'a FieldDescriptor, index: usize) -> (outcome: Result<
    FieldStrategy<'a>,
    GenerationError,
>)
    ensures
        strategy_view(outcome) == strategy_of(field, index),
{
    match check_field_type(&field.declared_type) {
        TypeShape::Wrapped { kind: WrapperKind::Optional, inner } => Ok(
            FieldStrategy::OptionalSlot { inner },
        ),
        TypeShape::Wrapped { kind: WrapperKind::List, inner } => {
            match get_builder_each(&field.directives, index) {
                Ok(Some(each)) => Ok(FieldStrategy::AccumulatingSlot { element: inner, each }),
                Ok(None) => Ok(FieldStrategy::RequiredSlot { ty: &field.declared_type }),
                Err(error) => Err(error),
            }
        },
        TypeShape::Plain(ty) => Ok(FieldStrategy::RequiredSlot { ty }),
        TypeShape::Unsupported => Err(GenerationError::UnsupportedFieldType { field: index }),
    }
}

} // verus!
