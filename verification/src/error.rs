//! Why an expansion is refused, and what the compiler is told.
use vstd::prelude::*;
use crate::args::{arg_error_message, ArgError, ArgToken};

verus! {

/// Why one item of an annotated impl block cannot be forwarded.
#[derive(Clone, Copy, Debug, PartialEq, Eq, Structural)]
pub enum MemberFault {
    /// The item is not a method.
    NotMethod,
    /// The method is `async`.
    Async,
    /// The method is `const`.
    Const,
    /// The signature's input at this index binds a pattern other than a
    /// plain identifier.
    ComplexArgument(usize),
}

/// Why `#[opaque_enum]` refuses its input.
#[derive(Clone, Copy, Debug, PartialEq, Eq, Structural)]
pub enum ExpandError {
    /// The attribute's arguments are malformed.
    Args(ArgError),
    /// The annotated item's text does not read as a Rust item.
    Unparsable,
    /// The attribute is on something other than an enum or an impl block.
    UnsupportedItem,
    /// The impl block's self type is not a type path.
    SelfTypeNotPath,
    /// The impl block's item at `index` cannot be forwarded.
    Member { index: usize, fault: MemberFault },
}

/// The message reported for an error; `attr` is the attribute's argument
/// list, which an argument error may quote.
pub open spec fn expand_error_message(e: ExpandError, attr: Seq<ArgToken>) -> Seq<char> {
    match e {
        ExpandError::Args(a) => arg_error_message(a, attr),
        ExpandError::Unparsable => "`#[opaque_enum]` expected an item"@,
        ExpandError::UnsupportedItem => "`#[opaque_enum]` can only be applied to enums and impl blocks"@,
        ExpandError::SelfTypeNotPath => "`#[opaque_enum]` impl target must be a plain type path"@,
        ExpandError::Member { index, fault } => match fault {
            MemberFault::NotMethod => "`#[opaque_enum]` impl blocks currently support methods only"@,
            MemberFault::Async => "`#[opaque_enum]` does not yet support async methods"@,
            MemberFault::Const => "`#[opaque_enum]` does not yet support const methods"@,
            MemberFault::ComplexArgument(_) => "`#[opaque_enum]` forwarding requires simple identifier arguments"@,
        },
    }
}

impl ExpandError {
    /// The message reported for this error.
    pub fn message(&self, attr: &Vec<ArgToken>) -> (r: String)
        ensures
            r@ == expand_error_message(*self, attr@),
    {
        match self {
            ExpandError::Args(a) => a.message(attr),
            ExpandError::Unparsable => String::from_str("`#[opaque_enum]` expected an item"),
            ExpandError::UnsupportedItem => String::from_str(
                "`#[opaque_enum]` can only be applied to enums and impl blocks",
            ),
            ExpandError::SelfTypeNotPath => String::from_str(
                "`#[opaque_enum]` impl target must be a plain type path",
            ),
            ExpandError::Member { index: _, fault } => match fault {
                MemberFault::NotMethod => String::from_str(
                    "`#[opaque_enum]` impl blocks currently support methods only",
                ),
                MemberFault::Async => String::from_str(
                    "`#[opaque_enum]` does not yet support async methods",
                ),
                MemberFault::Const => String::from_str(
                    "`#[opaque_enum]` does not yet support const methods",
                ),
                MemberFault::ComplexArgument(_) => String::from_str(
                    "`#[opaque_enum]` forwarding requires simple identifier arguments",
                ),
            },
        }
    }
}

} // verus!
