use vstd::prelude::*;
use crate::content::{Content, DeError, Expected};
use crate::de::{DeserializeAs, SeqAccess};
use crate::tuple::{end_slots, next_slot, spec_slot, spec_slots_end};

verus! {

/// The first `n` slots of a fixed-length aggregate, each decoded with `U`,
/// or the error of the first slot that fails or is missing.
pub open spec fn spec_slots_as<T: DeepView, U: DeserializeAs<T>>(
    items: Seq<Content>,
    n: int,
    expected: Expected,
) -> Result<Seq<T::V>, DeError>
    decreases n,
{
    if n <= 0 {
        Ok(Seq::empty())
    } else {
        match spec_slots_as::<T, U>(items, n - 1, expected) {
            Err(x) => Err(x),
            Ok(prefix) => match spec_slot::<T, U>(items, n - 1, expected) {
                Err(x) => Err(x),
                Ok(v) => Ok(prefix.push(v)),
            },
        }
    }
}

proof fn lemma_slots_error_persists<T: DeepView, U: DeserializeAs<T>>(
    items: Seq<Content>,
    j: int,
    n: int,
    expected: Expected,
    e: DeError,
)
    requires
        0 <= j <= n,
        spec_slots_as::<T, U>(items, j, expected) == Err::<Seq<T::V>, DeError>(e),
    ensures
        spec_slots_as::<T, U>(items, n, expected) == Err::<Seq<T::V>, DeError>(e),
    decreases n - j,
{
    if n > j {
        lemma_slots_error_persists::<T, U>(items, j, n - 1, expected, e);
    }
}

/// An input with fewer than `n` slots, each of which decodes, fails with a
/// length error naming the first missing slot.
pub proof fn lemma_array_arity<T: DeepView, U: DeserializeAs<T>>(
    items: Seq<Content>,
    n: int,
    expected: Expected,
)
    requires
        items.len() < n,
        forall|i: int| 0 <= i < items.len() ==> (#[trigger] U::spec_deserialize_as(items[i])) is Ok,
    ensures
        spec_slots_as::<T, U>(items, n, expected) == Err::<Seq<T::V>, DeError>(
            DeError::InvalidLength(items.len() as usize, expected),
        ),
    decreases n,
{
    if n - 1 > items.len() {
        lemma_array_arity::<T, U>(items, n - 1, expected);
    } else {
        lemma_slots_all_present::<T, U>(items, items.len() as int, expected);
    }
}

proof fn lemma_slots_all_present<T: DeepView, U: DeserializeAs<T>>(
    items: Seq<Content>,
    n: int,
    expected: Expected,
)
    requires
        0 <= n <= items.len(),
        forall|i: int| 0 <= i < items.len() ==> (#[trigger] U::spec_deserialize_as(items[i])) is Ok,
    ensures
        spec_slots_as::<T, U>(items, n, expected) is Ok,
    decreases n,
{
    if n > 0 {
        lemma_slots_all_present::<T, U>(items, n - 1, expected);
        assert(U::spec_deserialize_as(items[n - 1]) is Ok);
    }
}

/// Relies on `TryFrom<Vec<T>> for [T; N]`: it gives the vector's elements
/// as an array exactly when the vector holds `N` of them.
#[verifier::external_body]
fn vec_into_array<T, const N: usize>(v: Vec<T>) -> (r: Option<[T; N]>)
    ensures
        r is Some <==> v@.len() == N,
        r is Some ==> r->Some_0@ == v@,
{
    <[T; N]>::try_from(v).ok()
}

impl<T: DeepView, U: DeserializeAs<T>, const N: usize> DeserializeAs<[T; N]> for [U; N] {
    /// The empty array needs no slot and succeeds on any sequence input; a
    /// longer one reads its slots in order from a sequence input of exactly
    /// `N` entries.
    open spec fn spec_deserialize_as(c: Content) -> Result<Seq<T::V>, DeError> {
        if N == 0 {
            match c {
                Content::List(_) => Ok(Seq::empty()),
                _ => Err(DeError::InvalidType(Expected::Array(N))),
            }
        } else {
            match c {
                Content::List(items) => match spec_slots_as::<T, U>(
                    items@,
                    N as int,
                    Expected::Array(N),
                ) {
                    Err(x) => Err(x),
                    Ok(vs) => match spec_slots_end(items@, N as int, Expected::Array(N)) {
                        Err(x) => Err(x),
                        Ok(_) => Ok(vs),
                    },
                },
                _ => Err(DeError::InvalidType(Expected::Array(N))),
            }
        }
    }

    open spec fn lawful() -> bool {
        U::lawful()
    }

    #[verifier::loop_isolation(false)]
    fn deserialize_as(c: &Content) -> (r: Result<[T; N], DeError>) {
        if N == 0 {
            if !matches!(c, Content::List(_)) {
                return Err(DeError::InvalidType(Expected::Array(N)));
            }
            let values: Vec<T> = Vec::new();
            return match vec_into_array::<T, N>(values) {
                Some(a) => {
                    proof {
                        assert(a.deep_view() =~= Seq::<T::V>::empty());
                    }
                    Ok(a)
                },
                None => Err(DeError::InvalidLength(0, Expected::Array(N))),
            };
        }
        match c {
            Content::List(items) => {
                let e = Expected::Array(N);
                let mut seq = SeqAccess::new(items);
                let mut values: Vec<T> = Vec::new();
                proof {
                    assert(values.deep_view() =~= Seq::<T::V>::empty());
                }
                let mut i: usize = 0;
                while i < N
                    invariant
                        U::lawful(),
                        seq.wf(),
                        seq.items() == items@,
                        seq.pos() == i,
                        i <= N,
                        values@.len() == i,
                        spec_slots_as::<T, U>(items@, i as int, e) == Ok::<Seq<T::V>, DeError>(
                            values.deep_view(),
                        ),
                    decreases N - i,
                {
                    let ghost prev = values.deep_view();
                    match next_slot::<T, U>(&mut seq, e) {
                        Ok(v) => {
                            values.push(v);
                            proof {
                                assert(values.deep_view() =~= prev.push(v.deep_view()));
                            }
                        },
                        Err(x) => {
                            proof {
                                lemma_slots_error_persists::<T, U>(items@, i + 1, N as int, e, x);
                            }
                            return Err(x);
                        },
                    }
                    i = i + 1;
                }
                match end_slots(&seq, e) {
                    Ok(()) => {
                        let ghost model = values.deep_view();
                        match vec_into_array::<T, N>(values) {
                            Some(a) => {
                                proof {
                                    assert(a.deep_view() =~= model);
                                }
                                Ok(a)
                            },
                            None => Err(DeError::InvalidLength(i, e)),
                        }
                    },
                    Err(x) => Err(x),
                }
            },
            _ => Err(DeError::InvalidType(Expected::Array(N))),
        }
    }
}

} // verus!
