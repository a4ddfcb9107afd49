//! Building blocks of the `opaque_enum` attribute: a verified model of the
//! macro's input and of the code it expands to.
use vstd::prelude::*;

pub mod args;
pub mod enum_expand;
pub mod error;
pub mod expand;
pub mod impl_expand;
pub mod laws;
pub mod model;
pub mod reading;
pub mod source;
pub mod syntax;
pub mod text;

verus! {

/// Projects an opaque wrapper receiver into the corresponding inner receiver.
///
/// Generated forwarding impls use this trait instead of hard-coding whether a
/// receiver should call `as_inner`, `as_inner_mut`, or `into_inner`.
pub trait OpaqueProject<Target> {
    /// The projected receiver type passed to the inner implementation.
    type Output;

    /// Projects `self` into the receiver expected by the inner implementation.
    fn project(self) -> Self::Output;
}

} // verus!
