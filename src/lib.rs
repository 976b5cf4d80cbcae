//! Conversion traits that carry an extra type parameter, so that one pair of
//! types can have several conversions between them, told apart by a marker
//! type. Each conversion states its result through a spec function, and the
//! blanket impls are proved to agree with the conversions they are built on.
use vstd::prelude::*;

pub mod batch;
pub mod laws;

verus! {

/// A value-to-value conversion that consumes the input value. The marker `X`
/// tells apart several conversions from one type to `T`. The opposite of
/// [`Fromage`].
pub trait Intoage<T, X>: Sized {
    /// The value that `intoage` turns `self` into.
    spec fn intoage_spec(self) -> T;

    /// Converts this type into the (usually inferred) input type.
    #[must_use]
    fn intoage(self) -> (r: T)
        ensures
            r == self.intoage_spec(),
    ;
}

/// Used to do value-to-value conversions while consuming the input value.
/// The marker `X` tells apart several conversions from `T` to one type.
/// It is the reciprocal of [`Intoage`].
pub trait Fromage<T, X>: Sized {
    /// The value that `fromage` builds from `value`.
    spec fn fromage_spec(value: T) -> Self;

    /// Converts to this type from the input type.
    #[must_use]
    fn fromage(value: T) -> (r: Self)
        ensures
            r == Self::fromage_spec(value),
    ;
}

/// An attempted conversion that consumes `self`. The marker `X` tells apart
/// several conversions from one type to `T`.
pub trait TryIntoage<T, X>: Sized {
    /// The type returned in the event of a conversion error.
    type Error;

    /// The outcome of `try_intoage` on `self`.
    spec fn try_intoage_spec(self) -> Result<T, Self::Error>;

    /// Performs the conversion.
    fn try_intoage(self) -> (r: Result<T, Self::Error>)
        ensures
            r == self.try_intoage_spec(),
    ;
}

/// Conversions that may fail in a controlled way. The marker `X` tells apart
/// several conversions from `T` to one type. It is the reciprocal of
/// [`TryIntoage`].
pub trait TryFromage<T, X>: Sized {
    /// The type returned in the event of a conversion error.
    type Error;

    /// The outcome of `try_fromage` on `value`.
    spec fn try_fromage_spec(value: T) -> Result<Self, Self::Error>;

    /// Performs the conversion.
    fn try_fromage(value: T) -> (r: Result<Self, Self::Error>)
        ensures
            r == Self::try_fromage_spec(value),
    ;
}

// From implies Into.
impl<T, U, X> Intoage<U, X> for T where U: Fromage<T, X> {
    open spec fn intoage_spec(self) -> U {
        U::fromage_spec(self)
    }

    /// Calls `U::fromage(self)`: this conversion is whatever the impl of
    /// `Fromage<T, X>` for `U` does.
    #[inline]
    fn intoage(self) -> (r: U) {
        U::fromage(self)
    }
}

// From (and thus Into) is reflexive.
impl<T> Fromage<T, ()> for T {
    open spec fn fromage_spec(value: T) -> T {
        value
    }

    /// Returns the argument unchanged.
    #[inline(always)]
    fn fromage(t: T) -> (r: T) {
        t
    }
}

// TryFrom implies TryInto.
impl<T, U, X> TryIntoage<U, X> for T where U: TryFromage<T, X> {
    type Error = U::Error;

    open spec fn try_intoage_spec(self) -> Result<U, U::Error> {
        U::try_fromage_spec(self)
    }

    #[inline]
    fn try_intoage(self) -> (r: Result<U, U::Error>) {
        U::try_fromage(self)
    }
}

// Infallible conversions are fallible conversions whose error type has no
// values.
impl<T, U> TryFromage<U, ()> for T where U: Intoage<T, ()> {
    type Error = core::convert::Infallible;

    open spec fn try_fromage_spec(value: U) -> Result<T, core::convert::Infallible> {
        Ok(value.intoage_spec())
    }

    #[inline]
    fn try_fromage(value: U) -> (r: Result<T, core::convert::Infallible>) {
        Ok(U::intoage(value))
    }
}

} // verus!
