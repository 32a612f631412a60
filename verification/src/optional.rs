use vstd::prelude::*;

verus! {

/// Wraps a value into an optional in the present state.
pub fn present<T>(value: T) -> (r: Option<T>)
    ensures
        r == Some(value),
{
    Some(value)
}

/// Constructs an optional in the absent state, holding no value.
pub fn absent<T>() -> (r: Option<T>)
    ensures
        r is None,
{
    None
}

/// Extracts the underlying value of an optional in the present state.
/// The absent case must be ruled out by the caller before the value can
/// be used, so an optional and its underlying type stay distinct.
pub fn extract<T>(opt: Option<T>) -> (r: T)
    requires
        opt is Some,
    ensures
        opt == Some(r),
{
    opt.unwrap()
}

/// Round trip: an optional constructed in the present state from a value
/// holds exactly that value, so extracting it yields the original again.
pub proof fn lemma_present_extract_round_trip<T>(value: T, opt: Option<T>, extracted: T)
    requires
        opt == Some(value),
        opt == Some(extracted),
    ensures
        extracted == value,
{
}

/// An optional in the absent state is distinguishable from the present
/// state wrapping any value, for every underlying value type.
pub proof fn lemma_absent_distinct<T>(value: T)
    ensures
        Option::<T>::None != Some(value),
{
}

} // verus!
