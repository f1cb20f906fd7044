//! Conversion of slices between integer types.
use vstd::prelude::*;

use vstd::std_specs::convert::TryIntoSpec;

verus! {

/// Converts every element of `slice` with `TryInto`, in order; `None` where
/// some element does not fit the target type.
pub fn cast_slice_to_type<TFrom: Copy + TryInto<TTo>, TTo>(slice: &[TFrom]) -> (r: Option<Vec<TTo>>)
    ensures
        r is Some ==> r->Some_0@.len() == slice@.len(),
        <TFrom as TryIntoSpec<TTo>>::obeys_try_into_spec() ==> {
            &&& (r is Some <==> forall|i: int|
                0 <= i < slice@.len() ==> (#[trigger] slice@[i]).try_into_spec() is Ok)
            &&& r is Some ==> forall|i: int|
                0 <= i < slice@.len() ==> (#[trigger] slice@[i]).try_into_spec() == Ok::<
                    TTo,
                    <TFrom as TryInto<TTo>>::Error,
                >(r->Some_0@[i])
        },
{
    let mut out: Vec<TTo> = Vec::new();
    let mut i: usize = 0;
    while i < slice.len()
        invariant
            0 <= i <= slice@.len(),
            out@.len() == i,
            <TFrom as TryIntoSpec<TTo>>::obeys_try_into_spec() ==> forall|j: int|
                0 <= j < i ==> (#[trigger] slice@[j]).try_into_spec() == Ok::<
                    TTo,
                    <TFrom as TryInto<TTo>>::Error,
                >(out@[j]),
        decreases slice.len() - i,
    {
        let elem: TFrom = slice[i];
        match elem.try_into() {
            Ok(x) => out.push(x),
            Err(_) => return None,
        }
        i = i + 1;
    }
    Some(out)
}

} // verus!
