//! Conversions of whole sequences: each value converted on its own, in order.
use vstd::prelude::*;

use crate::{Intoage, TryIntoage};

verus! {

/// Moves the values of `values` into a new vector in reverse order, so that
/// popping from it yields them front to back.
fn reversed<T>(values: Vec<T>) -> (r: Vec<T>)
    ensures
        r.len() == values.len(),
        forall|j: int| 0 <= j < r.len() ==> r[j] == values[values.len() - 1 - j],
{
    let ghost orig = values@;
    let mut rest = values;
    let mut r: Vec<T> = Vec::new();
    while rest.len() > 0
        invariant
            rest@ == orig.subrange(0, rest.len() as int),
            r.len() + rest.len() == orig.len(),
            forall|j: int| 0 <= j < r.len() ==> r[j] == orig[orig.len() - 1 - j],
        decreases rest.len(),
    {
        let v = rest.pop().unwrap();
        r.push(v);
    }
    r
}

/// Converts every value of `values` with `intoage`, keeping their order: the
/// result has as many values, and the one at each index is the conversion of
/// the value there.
pub fn intoage_all<T, U, X>(values: Vec<T>) -> (r: Vec<U>) where T: Intoage<U, X>
    ensures
        r.len() == values.len(),
        forall|i: int| 0 <= i < r.len() ==> r[i] == values[i].intoage_spec(),
{
    let ghost orig = values@;
    let mut pending = reversed(values);
    let mut r: Vec<U> = Vec::new();
    while pending.len() > 0
        invariant
            r.len() + pending.len() == orig.len(),
            forall|j: int|
                0 <= j < pending.len() ==> pending[j] == orig[orig.len() - 1 - j],
            forall|i: int| 0 <= i < r.len() ==> r[i] == orig[i].intoage_spec(),
        decreases pending.len(),
    {
        let v = pending.pop().unwrap();
        r.push(v.intoage());
    }
    r
}

/// Converts every value of `values` with `try_intoage`, front to back. All
/// succeed if and only if the result is `Ok`, which then holds the converted
/// values in order. Otherwise the error is that of the first value whose
/// conversion fails, and the values after it are not converted.
pub fn try_intoage_all<T, U, X>(values: Vec<T>) -> (r: Result<
    Vec<U>,
    <T as TryIntoage<U, X>>::Error,
>) where T: TryIntoage<U, X>
    ensures
        r is Ok <==> forall|i: int| 0 <= i < values.len() ==> values[i].try_intoage_spec() is Ok,
        r is Ok ==> r->Ok_0.len() == values.len() && forall|i: int|
            0 <= i < values.len() ==> r->Ok_0[i] == values[i].try_intoage_spec()->Ok_0,
        r is Err ==> exists|k: int|
            0 <= k < values.len() && values[k].try_intoage_spec() == Err::<U, _>(r->Err_0)
                && forall|j: int| 0 <= j < k ==> values[j].try_intoage_spec() is Ok,
{
    let ghost orig = values@;
    let mut pending = reversed(values);
    let mut r: Vec<U> = Vec::new();
    while pending.len() > 0
        invariant
            values@ == orig,
            r.len() + pending.len() == orig.len(),
            forall|j: int|
                0 <= j < pending.len() ==> pending[j] == orig[orig.len() - 1 - j],
            forall|i: int| 0 <= i < r.len() ==> orig[i].try_intoage_spec() is Ok,
            forall|i: int| 0 <= i < r.len() ==> r[i] == orig[i].try_intoage_spec()->Ok_0,
        decreases pending.len(),
    {
        let ghost k = r.len() as int;
        let v = pending.pop().unwrap();
        match v.try_intoage() {
            Ok(u) => r.push(u),
            Err(e) => {
                assert(orig[k].try_intoage_spec() == Err::<U, _>(e));
                return Err(e);
            },
        }
    }
    Ok(r)
}

} // verus!
