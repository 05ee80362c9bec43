//! A compile-time type choice: of two types, the one a boolean
//! parameter selects.

use vstd::prelude::*;

verus! {

/// A carrier of a chosen type.
pub trait Conditional {
    type Type;
}

/// Selects `T` when `C` is true and `F` when it is false.
pub struct ConditionalImpl<T, F, const C: bool> {
    _marker: core::marker::PhantomData<(T, F)>,
}

impl<T, F> Conditional for ConditionalImpl<T, F, true> {
    type Type = T;
}

impl<T, F> Conditional for ConditionalImpl<T, F, false> {
    type Type = F;
}

/// The type `ConditionalImpl` selects.
pub type ConditionalType<T, F, const C: bool> = <ConditionalImpl<T, F, C> as Conditional>::Type;

} // verus!
