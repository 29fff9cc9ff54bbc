//! The record declaration that a builder is synthesized for.
//!
//! A declaration is plain data. The host that discovers a declaration (a
//! compiler hook, a build step, a tool that reads an interface description)
//! hands it over in this form; nothing here depends on how the host found it.

use vstd::prelude::*;

verus! {

/// A literal that stands as the value of a directive parameter.
#[derive(Debug, PartialEq, Eq)]
pub enum Literal {
    /// A string literal, held as the string it denotes.
    Str(String),
    /// Any literal that is not a string: a number, a boolean, a character,
    /// a byte string.
    Other,
}

/// One parameter inside the parentheses of a directive.
#[derive(Debug, PartialEq, Eq)]
pub enum Param {
    /// `name = literal`.
    Named { name: Path, value: Literal },
    /// Any other form: a bare word, a nested group, a bare literal.
    Other,
}

/// What follows the key of a directive.
#[derive(Debug, PartialEq, Eq)]
pub enum DirectiveBody {
    /// Nothing: the directive is its key alone, `#[key]`.
    Flag,
    /// A single value, `#[key = literal]`.
    Value(Literal),
    /// A parenthesized list of parameters, `#[key(param, ...)]`.
    Params(Vec<Param>),
    /// Content that has none of the forms above.
    Opaque,
}

/// An annotation on a field, kept as the host found it: extraction does not
/// interpret it.
#[derive(Debug, PartialEq, Eq)]
pub struct Directive {
    pub key: Path,
    pub body: DirectiveBody,
}

/// One argument between the angle brackets of a path segment.
#[derive(Debug, PartialEq, Eq)]
pub enum GenericArgument {
    /// A type, as in `Vec<String>`.
    Type(TypeSyntax),
    /// Anything else: a lifetime, a constant, an associated-type binding, a
    /// constraint.
    Other,
}

/// The arguments of a path segment.
#[derive(Debug, PartialEq, Eq)]
pub enum PathArguments {
    /// No arguments, as in `String`.
    Bare,
    /// Arguments between angle brackets, as in `Vec<String>`.
    AngleBracketed(Vec<GenericArgument>),
    /// Arguments between parentheses, as in `Fn(u8) -> u8`.
    Parenthesized,
}

/// One segment of a path: an identifier and its arguments.
#[derive(Debug, PartialEq, Eq)]
pub struct PathSegment {
    pub ident: String,
    pub arguments: PathArguments,
}

/// A path: segments separated by `::`, as in `std::vec::Vec<u8>`, `builder`
/// or `::core::option::Option`.
#[derive(Debug, PartialEq, Eq)]
pub struct Path {
    /// Whether the path begins with `::`.
    pub leading_colon: bool,
    pub segments: Vec<PathSegment>,
}

/// The structure of a type, as far as field classification looks into it.
#[derive(Debug, PartialEq, Eq)]
pub enum TypeForm {
    /// A path-like name.
    Path(Path),
    /// Any other type: a reference, a tuple, an array, a function pointer.
    Other,
}

/// A type as it stands in a declaration.
///
/// `text` is the type as written and is carried through unread, so that
/// whoever renders a builder can write the type out again. `form` is what
/// classification reads. That the two describe the same type is up to the
/// host that fills them in.
#[derive(Debug, PartialEq, Eq)]
pub struct TypeSyntax {
    pub text: String,
    pub form: TypeForm,
}

/// A named field of a record: its name, its declared type and its
/// directives, in the order in which they are written.
#[derive(Debug, PartialEq, Eq)]
pub struct FieldDescriptor {
    pub name: String,
    pub declared_type: TypeSyntax,
    pub directives: Vec<Directive>,
}

/// The fields of a single-variant declaration.
#[derive(Debug, PartialEq, Eq)]
pub enum Fields {
    /// Named fields between braces, in declaration order.
    Named(Vec<FieldDescriptor>),
    /// Positional fields, as in `struct Pair(u8, u8);`.
    Unnamed,
    /// No fields at all, as in `struct Marker;`.
    Unit,
}

/// What a declaration declares.
#[derive(Debug, PartialEq, Eq)]
pub enum DeclarationBody {
    /// A single-variant type with its fields.
    Struct(Fields),
    /// A multi-variant type.
    Enum,
    /// An untagged union.
    Union,
}

/// A type declaration as the host hands it over.
#[derive(Debug, PartialEq, Eq)]
pub struct Declaration {
    pub name: String,
    pub body: DeclarationBody,
}

impl Path {
    /// Whether the path is the single identifier `name`: it has no leading
    /// `::`, it has one segment, that segment has no arguments, and its
    /// identifier is `name`.
    pub open spec fn spec_is_ident(&self, name: Seq<char>) -> bool {
        &&& !self.leading_colon
        &&& self.segments@.len() == 1
        &&& self.segments@[0].arguments is Bare
        &&& self.segments@[0].ident@ == name
    }

    /// Tells whether the path is the single identifier `name`.
    pub fn is_ident(&self, name: &str) -> (same: bool)
        ensures
            same == self.spec_is_ident(name@),
    {
        if self.leading_colon || self.segments.len() != 1 {
            return false;
        }
        match &self.segments[0].arguments {
            PathArguments::Bare => {
                let wanted = String::from_str(name);
                self.segments[0].ident == wanted
            },
            _ => false,
        }
    }
}

impl Declaration {
    /// The named fields of the declaration; empty where it has none.
    pub open spec fn named_fields(&self) -> Seq<FieldDescriptor> {
        match self.body {
            DeclarationBody::Struct(Fields::Named(fields)) => fields@,
            _ => Seq::empty(),
        }
    }
}

} // verus!
