//! What the blanket impls guarantee of every conversion built on them.
use vstd::prelude::*;

use crate::{Fromage, Intoage, TryFromage, TryIntoage};

verus! {

/// Reflexivity: converting a value to its own type through the identity
/// conversion gives back a value equal to the original, whether it is
/// written with `fromage` or with `intoage`.
pub proof fn lemma_reflexive<T>(t: T)
    ensures
        <T as Fromage<T, ()>>::fromage_spec(t) == t,
        <T as Intoage<T, ()>>::intoage_spec(t) == t,
{
}

/// Reciprocity: where `U` has a consuming conversion from `T`, calling
/// `intoage` on a `T` gives what `U::fromage` gives on it.
pub proof fn lemma_reciprocal<T, U, X>(t: T) where U: Fromage<T, X>
    ensures
        <T as Intoage<U, X>>::intoage_spec(t) == <U as Fromage<T, X>>::fromage_spec(t),
{
}

/// An infallible conversion taken as a fallible one always succeeds, and
/// carries the value that the infallible conversion gives; through
/// `try_fromage` and through `try_intoage` alike.
pub proof fn lemma_infallible_succeeds<T, U>(u: U) where U: Intoage<T, ()>
    ensures
        <T as TryFromage<U, ()>>::try_fromage_spec(u) == Ok::<T, core::convert::Infallible>(
            <U as Intoage<T, ()>>::intoage_spec(u),
        ),
        <U as TryIntoage<T, ()>>::try_intoage_spec(u) == Ok::<T, core::convert::Infallible>(
            <U as Intoage<T, ()>>::intoage_spec(u),
        ),
{
}

} // verus!
