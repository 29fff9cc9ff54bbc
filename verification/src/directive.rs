//! The directive validator: does a field carry `builder(each = "...")`?
//!
//! Directives under any other key are none of this library's business and are
//! passed over. The first directive under the key `builder` decides: it either
//! has exactly the form `builder(each = "name")`, with one parameter and a
//! string for its value, or it is malformed and synthesis stops. A malformed
//! directive is never read as "no directive".

use vstd::prelude::*;
use crate::declaration::{Directive, DirectiveBody, Literal, Param};
use crate::error::GenerationError;

verus! {

impl Directive {
    /// Whether the directive stands under the recognized key, `builder`.
    pub open spec fn is_recognized(&self) -> bool {
        self.key.spec_is_ident("builder"@)
    }

    /// The element-setter name that the directive declares: `Some` exactly
    /// when its body is one parameter `each = "name"`.
    pub open spec fn each_value(&self) -> Option<Seq<char>> {
        match self.body {
            DirectiveBody::Params(params) => if params@.len() == 1 {
                match params@[0] {
                    Param::Named { name, value: Literal::Str(setter) } => if name.spec_is_ident(
                        "each"@,
                    ) {
                        Some(setter@)
                    } else {
                        None
                    },
                    _ => None,
                }
            } else {
                None
            },
            _ => None,
        }
    }

    /// Reads the element-setter name off a directive, whatever its key.
    pub fn each_setter<'a>(&'a self) -> (setter: Option<&'a str>)
        ensures
            setter is Some <==> self.each_value() is Some,
            setter matches Some(name) ==> self.each_value() == Some(name@),
    {
        match &self.body {
            DirectiveBody::Params(params) => {
                if params.len() == 1 {
                    match &params[0] {
                        Param::Named { name, value: Literal::Str(setter) } => {
                            if name.is_ident("each") {
                                Some(setter.as_str())
                            } else {
                                None
                            }
                        },
                        _ => None,
                    }
                } else {
                    None
                }
            },
            _ => None,
        }
    }
}

/// Whether `index` is the first directive under the recognized key.
pub open spec fn is_first_recognized(directives: Seq<Directive>, index: int) -> bool {
    &&& 0 <= index < directives.len()
    &&& directives[index].is_recognized()
    &&& forall|earlier: int| 0 <= earlier < index ==> !(#[trigger] directives[earlier]).is_recognized()
}

/// Whether any directive stands under the recognized key.
pub open spec fn has_recognized(directives: Seq<Directive>) -> bool {
    exists|index: int| 0 <= index < directives.len() && (#[trigger] directives[index]).is_recognized()
}

/// The index of the first directive under the recognized key.
pub open spec fn first_recognized(directives: Seq<Directive>) -> int {
    choose|index: int| is_first_recognized(directives, index)
}

/// What the directives of the field with index `field` say about an element
/// setter: `Ok(None)` where none stands under the recognized key, and else
/// what the first such directive says, its name or the error that it is.
pub open spec fn each_directive(directives: Seq<Directive>, field: usize) -> Result<
    Option<Seq<char>>,
    GenerationError,
> {
    if has_recognized(directives) {
        let index = first_recognized(directives);
        match directives[index].each_value() {
            Some(setter) => Ok(Some(setter)),
            None => Err(GenerationError::MalformedDirective { field, directive: index as usize }),
        }
    } else {
        Ok(None)
    }
}

/// There is at most one first recognized directive, and `first_recognized`
/// names it.
pub proof fn lemma_first_recognized(directives: Seq<Directive>, index: int)
    requires
        is_first_recognized(directives, index),
    ensures
        has_recognized(directives),
        first_recognized(directives) == index,
{
    let chosen = first_recognized(directives);
    assert(is_first_recognized(directives, chosen));
    if chosen < index {
        assert(!directives[chosen].is_recognized());
    } else if index < chosen {
        assert(!directives[index].is_recognized());
    }
}

/// The view of what the validator returns.
pub open spec fn each_view(outcome: Result<Option<&str>, GenerationError>) -> Result<
    Option<Seq<char>>,
    GenerationError,
> {
    match outcome {
        Ok(Some(setter)) => Ok(Some(setter@)),
        Ok(None) => Ok(None),
        Err(error) => Err(error),
    }
}

/// Finds the element-setter name among the directives of the field with
/// index `field`.
///
/// Directives are taken in the order in which they are written, and the
/// first one under the key `builder` decides. The name is handed back as it
/// stands in the directive; whether it can serve as an identifier is for the
/// host to say.
pub fn get_builder_each<'a>(attrs: &'a Vec<Directive>, field: usize) -> (outcome: Result<
    Option<&'a str>,
    GenerationError,
>)
    ensures
        each_view(outcome) == each_directive(attrs@, field),
{
    let mut index: usize = 0;
    while index < attrs.len()
        invariant
            index <= attrs.len(),
            forall|earlier: int| 0 <= earlier < index ==> !(#[trigger] attrs@[earlier]).is_recognized(),
        decreases attrs.len() - index,
    {
        let attr = &attrs[index];
        if attr.key.is_ident("builder") {
            proof {
                lemma_first_recognized(attrs@, index as int);
            }
            return match attr.each_setter() {
                Some(setter) => Ok(Some(setter)),
                None => Err(GenerationError::MalformedDirective { field, directive: index }),
            };
        }
        index += 1;
    }
    Ok(None)
}

} // verus!
