use vstd::prelude::*;
use crate::content::{Content, DeError, Expected};
use crate::de::{cautious_capacity, result_view, DeserializeAs, SeqAccess};

verus! {

/// What decoding the entries `items` one by one with `U` gives: the decoded
/// values in order, or the error of the first entry that fails.
pub open spec fn spec_seq_as<T: DeepView, U: DeserializeAs<T>>(items: Seq<Content>) -> Result<
    Seq<T::V>,
    DeError,
>
    decreases items.len(),
{
    if items.len() == 0 {
        Ok(Seq::empty())
    } else {
        match spec_seq_as::<T, U>(items.drop_last()) {
            Err(e) => Err(e),
            Ok(prefix) => match U::spec_deserialize_as(items.last()) {
                Ok(v) => Ok(prefix.push(v)),
                Err(e) => Err(e),
            },
        }
    }
}

/// Once a prefix of the entries fails, every longer prefix fails with the
/// same error.
pub proof fn lemma_seq_error_persists<T: DeepView, U: DeserializeAs<T>>(
    s: Seq<Content>,
    j: int,
    n: int,
    e: DeError,
)
    requires
        0 <= j <= n <= s.len(),
        spec_seq_as::<T, U>(s.take(j)) == Err::<Seq<T::V>, DeError>(e),
    ensures
        spec_seq_as::<T, U>(s.take(n)) == Err::<Seq<T::V>, DeError>(e),
    decreases n - j,
{
    if n > j {
        lemma_seq_error_persists::<T, U>(s, j, n - 1, e);
        assert(s.take(n).drop_last() =~= s.take(n - 1));
    }
}

/// A sequence of `n` entries that each decode yields exactly `n` values, the
/// `i`-th being the decoding of the `i`-th entry.
pub proof fn lemma_seq_length_preserved<T: DeepView, U: DeserializeAs<T>>(items: Seq<Content>)
    requires
        forall|i: int| 0 <= i < items.len() ==> (#[trigger] U::spec_deserialize_as(items[i])) is Ok,
    ensures
        spec_seq_as::<T, U>(items) is Ok,
        spec_seq_as::<T, U>(items)->Ok_0.len() == items.len(),
        forall|i: int|
            0 <= i < items.len() ==> U::spec_deserialize_as(items[i]) == Ok::<T::V, DeError>(
                #[trigger] spec_seq_as::<T, U>(items)->Ok_0[i],
            ),
    decreases items.len(),
{
    if items.len() > 0 {
        let init = items.drop_last();
        assert forall|i: int| 0 <= i < init.len() implies (#[trigger] U::spec_deserialize_as(
            init[i],
        )) is Ok by {
            assert(init[i] == items[i]);
        }
        lemma_seq_length_preserved::<T, U>(init);
        assert(U::spec_deserialize_as(items[items.len() - 1]) is Ok);
        let out = spec_seq_as::<T, U>(items)->Ok_0;
        assert forall|i: int| 0 <= i < items.len() implies U::spec_deserialize_as(items[i]) == Ok::<
            T::V,
            DeError,
        >(#[trigger] spec_seq_as::<T, U>(items)->Ok_0[i]) by {
            if i < items.len() - 1 {
                assert(init[i] == items[i]);
            }
        }
    }
}

/// When entry `k` is the first that fails, decoding the sequence fails with
/// exactly that entry's error.
pub proof fn lemma_first_failure_propagates<T: DeepView, U: DeserializeAs<T>>(
    items: Seq<Content>,
    k: int,
)
    requires
        0 <= k < items.len(),
        forall|i: int| 0 <= i < k ==> (#[trigger] U::spec_deserialize_as(items[i])) is Ok,
        U::spec_deserialize_as(items[k]) is Err,
    ensures
        spec_seq_as::<T, U>(items) == Err::<Seq<T::V>, DeError>(
            U::spec_deserialize_as(items[k])->Err_0,
        ),
{
    let pre = items.take(k);
    assert forall|i: int| 0 <= i < pre.len() implies (#[trigger] U::spec_deserialize_as(
        pre[i],
    )) is Ok by {
        assert(pre[i] == items[i]);
    }
    lemma_seq_length_preserved::<T, U>(pre);
    assert(items.take(k + 1).drop_last() =~= pre);
    lemma_seq_error_persists::<T, U>(
        items,
        k + 1,
        items.len() as int,
        U::spec_deserialize_as(items[k])->Err_0,
    );
    assert(items.take(items.len() as int) =~= items);
}

/// Reads the remaining entries of `seq` with strategy `U`, stopping at the
/// first entry that fails.
pub fn visit_seq_as<T: DeepView, U: DeserializeAs<T>>(seq: &mut SeqAccess) -> (r: Result<
    Vec<T>,
    DeError,
>)
    requires
        old(seq).wf(),
        U::lawful(),
    ensures
        final(seq).wf(),
        final(seq).items() == old(seq).items(),
        old(seq).pos() <= final(seq).pos(),
        result_view(r) == spec_seq_as::<T, U>(old(seq).items().skip(old(seq).pos())),
        r is Ok ==> final(seq).pos() == old(seq).items().len(),
        // reading stops at the entry that fails, and at no later one
        r is Err ==> final(seq).pos() > old(seq).pos() && spec_seq_as::<T, U>(
            old(seq).items().subrange(old(seq).pos(), final(seq).pos() - 1),
        ) is Ok && U::spec_deserialize_as(old(seq).items()[final(seq).pos() - 1]) is Err,
{
    let ghost start = seq.pos();
    let ghost items = seq.items();
    let ghost rest = items.skip(start);
    let mut values: Vec<T> = Vec::with_capacity(cautious_capacity(seq.size_hint()));
    let mut failure: Option<DeError> = None;
    proof {
        assert(values.deep_view() =~= Seq::<T::V>::empty());
        assert(rest.take(0) =~= Seq::<Content>::empty());
    }
    loop
        invariant_except_break
            failure is None,
            spec_seq_as::<T, U>(rest.take(seq.pos() - start)) == Ok::<Seq<T::V>, DeError>(
                values.deep_view(),
            ),
        invariant
            U::lawful(),
            seq.wf(),
            seq.items() == items,
            rest == items.skip(start),
            0 <= start <= seq.pos(),
        ensures
            failure is None ==> seq.pos() == items.len() && spec_seq_as::<T, U>(rest)
                == Ok::<Seq<T::V>, DeError>(values.deep_view()),
            failure is Some ==> seq.pos() > start && spec_seq_as::<T, U>(rest) == Err::<
                Seq<T::V>,
                DeError,
            >(failure->Some_0) && spec_seq_as::<T, U>(items.subrange(start, seq.pos() - 1)) is Ok
                && U::spec_deserialize_as(items[seq.pos() - 1]) is Err,
        decreases items.len() - seq.pos(),
    {
        let ghost before = seq.pos();
        let ghost prev = values.deep_view();
        match seq.next_element::<T, U>() {
            Ok(Some(v)) => {
                values.push(v);
                proof {
                    let k = before - start;
                    assert(rest.take(k + 1).drop_last() =~= rest.take(k));
                    assert(rest.take(k + 1).last() == items[before]);
                    assert(values.deep_view() =~= prev.push(v.deep_view()));
                }
            },
            Ok(None) => {
                proof {
                    assert(rest.take(seq.pos() - start) =~= rest);
                }
                break;
            },
            Err(e) => {
                proof {
                    let k = before - start;
                    assert(rest.take(k + 1).drop_last() =~= rest.take(k));
                    assert(rest.take(k + 1).last() == items[before]);
                    lemma_seq_error_persists::<T, U>(rest, k + 1, rest.len() as int, e);
                    assert(rest.take(rest.len() as int) =~= rest);
                    assert(items.subrange(start, before) =~= rest.take(k));
                }
                failure = Some(e);
                break;
            },
        }
    }
    match failure {
        None => Ok(values),
        Some(e) => Err(e),
    }
}

impl<T: DeepView, U: DeserializeAs<T>> DeserializeAs<Vec<T>> for Vec<U> {
    open spec fn spec_deserialize_as(c: Content) -> Result<Seq<T::V>, DeError> {
        match c {
            Content::List(items) => spec_seq_as::<T, U>(items@),
            _ => Err(DeError::InvalidType(Expected::Sequence)),
        }
    }

    open spec fn lawful() -> bool {
        U::lawful()
    }

    fn deserialize_as(c: &Content) -> (r: Result<Vec<T>, DeError>) {
        match c {
            Content::List(items) => {
                let mut seq = SeqAccess::new(items);
                let r = visit_seq_as::<T, U>(&mut seq);
                proof {
                    assert(items@.skip(0) =~= items@);
                }
                r
            },
            _ => Err(DeError::InvalidType(Expected::Sequence)),
        }
    }
}

} // verus!
