use vstd::prelude::*;
use crate::content::{Content, DeError};
use crate::de::{result_view, DeserializeAs};

verus! {

impl<T: DeepView, U: DeserializeAs<T>> DeserializeAs<Option<T>> for Option<U> {
    /// Null and unit are absent; any other value is present, decoded with
    /// `U`, and its error is passed on.
    open spec fn spec_deserialize_as(c: Content) -> Result<Option<T::V>, DeError> {
        match c {
            Content::Unit => Ok(None),
            Content::Null => Ok(None),
            Content::Present(inner) => match U::spec_deserialize_as(*inner) {
                Ok(v) => Ok(Some(v)),
                Err(e) => Err(e),
            },
            _ => match U::spec_deserialize_as(c) {
                Ok(v) => Ok(Some(v)),
                Err(e) => Err(e),
            },
        }
    }

    open spec fn lawful() -> bool {
        U::lawful()
    }

    fn deserialize_as(c: &Content) -> (r: Result<Option<T>, DeError>) {
        match c {
            Content::Unit => Ok(None),
            Content::Null => Ok(None),
            Content::Present(inner) => match U::deserialize_as(inner) {
                Ok(v) => Ok(Some(v)),
                Err(e) => Err(e),
            },
            _ => match U::deserialize_as(c) {
                Ok(v) => Ok(Some(v)),
                Err(e) => Err(e),
            },
        }
    }
}

/// What probing a value for presence gives: the value decoded with `U`
/// when that succeeds, and absence when it fails.
pub open spec fn spec_probe_option<T: DeepView, U: DeserializeAs<T>>(c: Content) -> Option<T::V> {
    match U::spec_deserialize_as(c) {
        Ok(v) => Some(v),
        Err(_) => None,
    }
}

/// Probes `c` for a value decodable with `U`, as an enclosing format does
/// when it cannot tell a missing value from one of another shape: a failed
/// decode counts as absent rather than as an error.
pub fn probe_option<T: DeepView, U: DeserializeAs<T>>(c: &Content) -> (r: Option<T>)
    requires
        U::lawful(),
    ensures
        r is None <==> spec_probe_option::<T, U>(*c) is None,
        r is Some ==> spec_probe_option::<T, U>(*c) == Some(r->Some_0.deep_view()),
{
    let d = U::deserialize_as(c);
    proof {
        assert(result_view(d) == U::spec_deserialize_as(*c));
    }
    match d {
        Ok(v) => Some(v),
        Err(_) => None,
    }
}

/// An input marked absent decodes to `None` whatever the inner strategy; a
/// probe whose inner decode fails gives `None` rather than an error.
pub proof fn lemma_option_absence<T: DeepView, U: DeserializeAs<T>>(c: Content)
    ensures
        (c is Null || c is Unit) ==> <Option<U> as DeserializeAs<Option<T>>>::spec_deserialize_as(c)
            == Ok::<Option<T::V>, DeError>(None),
        U::spec_deserialize_as(c) is Err ==> spec_probe_option::<T, U>(c) is None,
{
}

/// A present value whose inner decode fails passes that error on.
pub proof fn lemma_option_present_error<T: DeepView, U: DeserializeAs<T>>(c: Content)
    ensures
        !(c is Null || c is Unit || c is Present) && U::spec_deserialize_as(c) is Err ==> <Option<
            U,
        > as DeserializeAs<Option<T>>>::spec_deserialize_as(c) == Err::<Option<T::V>, DeError>(
            U::spec_deserialize_as(c)->Err_0,
        ),
{
}

} // verus!
