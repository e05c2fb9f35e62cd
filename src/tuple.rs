use vstd::prelude::*;
use crate::content::{Content, DeError, Expected};
use crate::de::{result_view, DeserializeAs, SeqAccess};

verus! {

/// What slot `i` of a fixed-arity aggregate decodes to: the entry decoded
/// with `U`, or a length error naming `i` when the input has no such slot.
pub open spec fn spec_slot<T: DeepView, U: DeserializeAs<T>>(
    items: Seq<Content>,
    i: int,
    expected: Expected,
) -> Result<T::V, DeError> {
    if i < items.len() {
        U::spec_deserialize_as(items[i])
    } else {
        Err(DeError::InvalidLength(i as usize, expected))
    }
}

/// The check after the last of `n` slots: more entries than slots is a
/// length error naming the number of entries.
pub open spec fn spec_slots_end(items: Seq<Content>, n: int, expected: Expected) -> Result<
    (),
    DeError,
> {
    if items.len() > n {
        Err(DeError::InvalidLength(items.len() as usize, expected))
    } else {
        Ok(())
    }
}

/// Reads the next slot of a fixed-arity aggregate with strategy `U`.
pub fn next_slot<T: DeepView, U: DeserializeAs<T>>(seq: &mut SeqAccess, expected: Expected) -> (r:
    Result<T, DeError>)
    requires
        old(seq).wf(),
        U::lawful(),
    ensures
        final(seq).wf(),
        final(seq).items() == old(seq).items(),
        result_view(r) == spec_slot::<T, U>(old(seq).items(), old(seq).pos(), expected),
        r is Ok ==> final(seq).pos() == old(seq).pos() + 1,
{
    let i = seq.position();
    match seq.next_element::<T, U>() {
        Ok(Some(v)) => Ok(v),
        Ok(None) => Err(DeError::InvalidLength(i, expected)),
        Err(e) => Err(e),
    }
}

/// Checks that no entry is left after the last slot.
pub fn end_slots(seq: &SeqAccess, expected: Expected) -> (r: Result<(), DeError>)
    requires
        seq.wf(),
    ensures
        r == spec_slots_end(seq.items(), seq.pos(), expected),
{
    if seq.size_hint() > 0 {
        Err(DeError::InvalidLength(seq.len(), expected))
    } else {
        Ok(())
    }
}

impl<T0: DeepView, U0: DeserializeAs<T0>> DeserializeAs<(T0,)> for (U0,) {
    open spec fn spec_deserialize_as(c: Content) -> Result<(T0::V,), DeError> {
        match c {
            Content::List(items) => {
                let e = Expected::Tuple(1);
                let s0 = spec_slot::<T0, U0>(items@, 0, e);
                let end = spec_slots_end(items@, 1, e);
                if s0 is Err {
                    Err(s0->Err_0)
                } else if end is Err {
                    Err(end->Err_0)
                } else {
                    Ok((s0->Ok_0,))
                }
            },
            _ => Err(DeError::InvalidType(Expected::Tuple(1))),
        }
    }

    open spec fn lawful() -> bool {
        U0::lawful()
    }

    fn deserialize_as(c: &Content) -> (r: Result<(T0,), DeError>) {
        match c {
            Content::List(items) => {
                let e = Expected::Tuple(1);
                let mut seq = SeqAccess::new(items);
                let v0 = match next_slot::<T0, U0>(&mut seq, e) {
                    Ok(v) => v,
                    Err(x) => return Err(x),
                };
                match end_slots(&seq, e) {
                    Ok(()) => Ok((v0,)),
                    Err(x) => Err(x),
                }
            },
            _ => Err(DeError::InvalidType(Expected::Tuple(1))),
        }
    }
}

/// An input with fewer than 1 slots, each of which decodes, fails with a
/// length error naming the first missing slot.
pub proof fn lemma_tuple1_arity<T0: DeepView, U0: DeserializeAs<T0>>(c: Content)
    requires
        c is List,
        c->List_0@.len() < 1,
        0 < c->List_0@.len() ==> U0::spec_deserialize_as(c->List_0@[0]) is Ok,
    ensures
        <(U0,) as DeserializeAs<(T0,)>>::spec_deserialize_as(c) == Err::<(T0::V,), DeError>(
            DeError::InvalidLength(c->List_0@.len() as usize, Expected::Tuple(1)),
        ),
{
}

impl<T0: DeepView, T1: DeepView, U0: DeserializeAs<T0>, U1: DeserializeAs<T1>> DeserializeAs<(T0, T1)> for (U0, U1) {
    open spec fn spec_deserialize_as(c: Content) -> Result<(T0::V, T1::V), DeError> {
        match c {
            Content::List(items) => {
                let e = Expected::Tuple(2);
                let s0 = spec_slot::<T0, U0>(items@, 0, e);
                let s1 = spec_slot::<T1, U1>(items@, 1, e);
                let end = spec_slots_end(items@, 2, e);
                if s0 is Err {
                    Err(s0->Err_0)
                } else if s1 is Err {
                    Err(s1->Err_0)
                } else if end is Err {
                    Err(end->Err_0)
                } else {
                    Ok((s0->Ok_0, s1->Ok_0))
                }
            },
            _ => Err(DeError::InvalidType(Expected::Tuple(2))),
        }
    }

    open spec fn lawful() -> bool {
        U0::lawful() && U1::lawful()
    }

    fn deserialize_as(c: &Content) -> (r: Result<(T0, T1), DeError>) {
        match c {
            Content::List(items) => {
                let e = Expected::Tuple(2);
                let mut seq = SeqAccess::new(items);
                let v0 = match next_slot::<T0, U0>(&mut seq, e) {
                    Ok(v) => v,
                    Err(x) => return Err(x),
                };
                let v1 = match next_slot::<T1, U1>(&mut seq, e) {
                    Ok(v) => v,
                    Err(x) => return Err(x),
                };
                match end_slots(&seq, e) {
                    Ok(()) => Ok((v0, v1)),
                    Err(x) => Err(x),
                }
            },
            _ => Err(DeError::InvalidType(Expected::Tuple(2))),
        }
    }
}

/// An input with fewer than 2 slots, each of which decodes, fails with a
/// length error naming the first missing slot.
pub proof fn lemma_tuple2_arity<T0: DeepView, T1: DeepView, U0: DeserializeAs<T0>, U1: DeserializeAs<T1>>(c: Content)
    requires
        c is List,
        c->List_0@.len() < 2,
        0 < c->List_0@.len() ==> U0::spec_deserialize_as(c->List_0@[0]) is Ok,
        1 < c->List_0@.len() ==> U1::spec_deserialize_as(c->List_0@[1]) is Ok,
    ensures
        <(U0, U1) as DeserializeAs<(T0, T1)>>::spec_deserialize_as(c) == Err::<(T0::V, T1::V), DeError>(
            DeError::InvalidLength(c->List_0@.len() as usize, Expected::Tuple(2)),
        ),
{
}

impl<T0: DeepView, T1: DeepView, T2: DeepView, U0: DeserializeAs<T0>, U1: DeserializeAs<T1>, U2: DeserializeAs<T2>> DeserializeAs<(T0, T1, T2)> for (U0, U1, U2) {
    open spec fn spec_deserialize_as(c: Content) -> Result<(T0::V, T1::V, T2::V), DeError> {
        match c {
            Content::List(items) => {
                let e = Expected::Tuple(3);
                let s0 = spec_slot::<T0, U0>(items@, 0, e);
                let s1 = spec_slot::<T1, U1>(items@, 1, e);
                let s2 = spec_slot::<T2, U2>(items@, 2, e);
                let end = spec_slots_end(items@, 3, e);
                if s0 is Err {
                    Err(s0->Err_0)
                } else if s1 is Err {
                    Err(s1->Err_0)
                } else if s2 is Err {
                    Err(s2->Err_0)
                } else if end is Err {
                    Err(end->Err_0)
                } else {
                    Ok((s0->Ok_0, s1->Ok_0, s2->Ok_0))
                }
            },
            _ => Err(DeError::InvalidType(Expected::Tuple(3))),
        }
    }

    open spec fn lawful() -> bool {
        U0::lawful() && U1::lawful() && U2::lawful()
    }

    fn deserialize_as(c: &Content) -> (r: Result<(T0, T1, T2), DeError>) {
        match c {
            Content::List(items) => {
                let e = Expected::Tuple(3);
                let mut seq = SeqAccess::new(items);
                let v0 = match next_slot::<T0, U0>(&mut seq, e) {
                    Ok(v) => v,
                    Err(x) => return Err(x),
                };
                let v1 = match next_slot::<T1, U1>(&mut seq, e) {
                    Ok(v) => v,
                    Err(x) => return Err(x),
                };
                let v2 = match next_slot::<T2, U2>(&mut seq, e) {
                    Ok(v) => v,
                    Err(x) => return Err(x),
                };
                match end_slots(&seq, e) {
                    Ok(()) => Ok((v0, v1, v2)),
                    Err(x) => Err(x),
                }
            },
            _ => Err(DeError::InvalidType(Expected::Tuple(3))),
        }
    }
}

/// An input with fewer than 3 slots, each of which decodes, fails with a
/// length error naming the first missing slot.
pub proof fn lemma_tuple3_arity<T0: DeepView, T1: DeepView, T2: DeepView, U0: DeserializeAs<T0>, U1: DeserializeAs<T1>, U2: DeserializeAs<T2>>(c: Content)
    requires
        c is List,
        c->List_0@.len() < 3,
        0 < c->List_0@.len() ==> U0::spec_deserialize_as(c->List_0@[0]) is Ok,
        1 < c->List_0@.len() ==> U1::spec_deserialize_as(c->List_0@[1]) is Ok,
        2 < c->List_0@.len() ==> U2::spec_deserialize_as(c->List_0@[2]) is Ok,
    ensures
        <(U0, U1, U2) as DeserializeAs<(T0, T1, T2)>>::spec_deserialize_as(c) == Err::<(T0::V, T1::V, T2::V), DeError>(
            DeError::InvalidLength(c->List_0@.len() as usize, Expected::Tuple(3)),
        ),
{
}

impl<T0: DeepView, T1: DeepView, T2: DeepView, T3: DeepView, U0: DeserializeAs<T0>, U1: DeserializeAs<T1>, U2: DeserializeAs<T2>, U3: DeserializeAs<T3>> DeserializeAs<(T0, T1, T2, T3)> for (U0, U1, U2, U3) {
    open spec fn spec_deserialize_as(c: Content) -> Result<(T0::V, T1::V, T2::V, T3::V), DeError> {
        match c {
            Content::List(items) => {
                let e = Expected::Tuple(4);
                let s0 = spec_slot::<T0, U0>(items@, 0, e);
                let s1 = spec_slot::<T1, U1>(items@, 1, e);
                let s2 = spec_slot::<T2, U2>(items@, 2, e);
                let s3 = spec_slot::<T3, U3>(items@, 3, e);
                let end = spec_slots_end(items@, 4, e);
                if s0 is Err {
                    Err(s0->Err_0)
                } else if s1 is Err {
                    Err(s1->Err_0)
                } else if s2 is Err {
                    Err(s2->Err_0)
                } else if s3 is Err {
                    Err(s3->Err_0)
                } else if end is Err {
                    Err(end->Err_0)
                } else {
                    Ok((s0->Ok_0, s1->Ok_0, s2->Ok_0, s3->Ok_0))
                }
            },
            _ => Err(DeError::InvalidType(Expected::Tuple(4))),
        }
    }

    open spec fn lawful() -> bool {
        U0::lawful() && U1::lawful() && U2::lawful() && U3::lawful()
    }

    fn deserialize_as(c: &Content) -> (r: Result<(T0, T1, T2, T3), DeError>) {
        match c {
            Content::List(items) => {
                let e = Expected::Tuple(4);
                let mut seq = SeqAccess::new(items);
                let v0 = match next_slot::<T0, U0>(&mut seq, e) {
                    Ok(v) => v,
                    Err(x) => return Err(x),
                };
                let v1 = match next_slot::<T1, U1>(&mut seq, e) {
                    Ok(v) => v,
                    Err(x) => return Err(x),
                };
                let v2 = match next_slot::<T2, U2>(&mut seq, e) {
                    Ok(v) => v,
                    Err(x) => return Err(x),
                };
                let v3 = match next_slot::<T3, U3>(&mut seq, e) {
                    Ok(v) => v,
                    Err(x) => return Err(x),
                };
                match end_slots(&seq, e) {
                    Ok(()) => Ok((v0, v1, v2, v3)),
                    Err(x) => Err(x),
                }
            },
            _ => Err(DeError::InvalidType(Expected::Tuple(4))),
        }
    }
}

/// An input with fewer than 4 slots, each of which decodes, fails with a
/// length error naming the first missing slot.
pub proof fn lemma_tuple4_arity<T0: DeepView, T1: DeepView, T2: DeepView, T3: DeepView, U0: DeserializeAs<T0>, U1: DeserializeAs<T1>, U2: DeserializeAs<T2>, U3: DeserializeAs<T3>>(c: Content)
    requires
        c is List,
        c->List_0@.len() < 4,
        0 < c->List_0@.len() ==> U0::spec_deserialize_as(c->List_0@[0]) is Ok,
        1 < c->List_0@.len() ==> U1::spec_deserialize_as(c->List_0@[1]) is Ok,
        2 < c->List_0@.len() ==> U2::spec_deserialize_as(c->List_0@[2]) is Ok,
        3 < c->List_0@.len() ==> U3::spec_deserialize_as(c->List_0@[3]) is Ok,
    ensures
        <(U0, U1, U2, U3) as DeserializeAs<(T0, T1, T2, T3)>>::spec_deserialize_as(c) == Err::<(T0::V, T1::V, T2::V, T3::V), DeError>(
            DeError::InvalidLength(c->List_0@.len() as usize, Expected::Tuple(4)),
        ),
{
}

impl<T0: DeepView, T1: DeepView, T2: DeepView, T3: DeepView, T4: DeepView, U0: DeserializeAs<T0>, U1: DeserializeAs<T1>, U2: DeserializeAs<T2>, U3: DeserializeAs<T3>, U4: DeserializeAs<T4>> DeserializeAs<(T0, T1, T2, T3, T4)> for (U0, U1, U2, U3, U4) {
    open spec fn spec_deserialize_as(c: Content) -> Result<(T0::V, T1::V, T2::V, T3::V, T4::V), DeError> {
        match c {
            Content::List(items) => {
                let e = Expected::Tuple(5);
                let s0 = spec_slot::<T0, U0>(items@, 0, e);
                let s1 = spec_slot::<T1, U1>(items@, 1, e);
                let s2 = spec_slot::<T2, U2>(items@, 2, e);
                let s3 = spec_slot::<T3, U3>(items@, 3, e);
                let s4 = spec_slot::<T4, U4>(items@, 4, e);
                let end = spec_slots_end(items@, 5, e);
                if s0 is Err {
                    Err(s0->Err_0)
                } else if s1 is Err {
                    Err(s1->Err_0)
                } else if s2 is Err {
                    Err(s2->Err_0)
                } else if s3 is Err {
                    Err(s3->Err_0)
                } else if s4 is Err {
                    Err(s4->Err_0)
                } else if end is Err {
                    Err(end->Err_0)
                } else {
                    Ok((s0->Ok_0, s1->Ok_0, s2->Ok_0, s3->Ok_0, s4->Ok_0))
                }
            },
            _ => Err(DeError::InvalidType(Expected::Tuple(5))),
        }
    }

    open spec fn lawful() -> bool {
        U0::lawful() && U1::lawful() && U2::lawful() && U3::lawful() && U4::lawful()
    }

    fn deserialize_as(c: &Content) -> (r: Result<(T0, T1, T2, T3, T4), DeError>) {
        match c {
            Content::List(items) => {
                let e = Expected::Tuple(5);
                let mut seq = SeqAccess::new(items);
                let v0 = match next_slot::<T0, U0>(&mut seq, e) {
                    Ok(v) => v,
                    Err(x) => return Err(x),
                };
                let v1 = match next_slot::<T1, U1>(&mut seq, e) {
                    Ok(v) => v,
                    Err(x) => return Err(x),
                };
                let v2 = match next_slot::<T2, U2>(&mut seq, e) {
                    Ok(v) => v,
                    Err(x) => return Err(x),
                };
                let v3 = match next_slot::<T3, U3>(&mut seq, e) {
                    Ok(v) => v,
                    Err(x) => return Err(x),
                };
                let v4 = match next_slot::<T4, U4>(&mut seq, e) {
                    Ok(v) => v,
                    Err(x) => return Err(x),
                };
                match end_slots(&seq, e) {
                    Ok(()) => Ok((v0, v1, v2, v3, v4)),
                    Err(x) => Err(x),
                }
            },
            _ => Err(DeError::InvalidType(Expected::Tuple(5))),
        }
    }
}

/// An input with fewer than 5 slots, each of which decodes, fails with a
/// length error naming the first missing slot.
pub proof fn lemma_tuple5_arity<T0: DeepView, T1: DeepView, T2: DeepView, T3: DeepView, T4: DeepView, U0: DeserializeAs<T0>, U1: DeserializeAs<T1>, U2: DeserializeAs<T2>, U3: DeserializeAs<T3>, U4: DeserializeAs<T4>>(c: Content)
    requires
        c is List,
        c->List_0@.len() < 5,
        0 < c->List_0@.len() ==> U0::spec_deserialize_as(c->List_0@[0]) is Ok,
        1 < c->List_0@.len() ==> U1::spec_deserialize_as(c->List_0@[1]) is Ok,
        2 < c->List_0@.len() ==> U2::spec_deserialize_as(c->List_0@[2]) is Ok,
        3 < c->List_0@.len() ==> U3::spec_deserialize_as(c->List_0@[3]) is Ok,
        4 < c->List_0@.len() ==> U4::spec_deserialize_as(c->List_0@[4]) is Ok,
    ensures
        <(U0, U1, U2, U3, U4) as DeserializeAs<(T0, T1, T2, T3, T4)>>::spec_deserialize_as(c) == Err::<(T0::V, T1::V, T2::V, T3::V, T4::V), DeError>(
            DeError::InvalidLength(c->List_0@.len() as usize, Expected::Tuple(5)),
        ),
{
}

impl<T0: DeepView, T1: DeepView, T2: DeepView, T3: DeepView, T4: DeepView, T5: DeepView, U0: DeserializeAs<T0>, U1: DeserializeAs<T1>, U2: DeserializeAs<T2>, U3: DeserializeAs<T3>, U4: DeserializeAs<T4>, U5: DeserializeAs<T5>> DeserializeAs<(T0, T1, T2, T3, T4, T5)> for (U0, U1, U2, U3, U4, U5) {
    open spec fn spec_deserialize_as(c: Content) -> Result<(T0::V, T1::V, T2::V, T3::V, T4::V, T5::V), DeError> {
        match c {
            Content::List(items) => {
                let e = Expected::Tuple(6);
                let s0 = spec_slot::<T0, U0>(items@, 0, e);
                let s1 = spec_slot::<T1, U1>(items@, 1, e);
                let s2 = spec_slot::<T2, U2>(items@, 2, e);
                let s3 = spec_slot::<T3, U3>(items@, 3, e);
                let s4 = spec_slot::<T4, U4>(items@, 4, e);
                let s5 = spec_slot::<T5, U5>(items@, 5, e);
                let end = spec_slots_end(items@, 6, e);
                if s0 is Err {
                    Err(s0->Err_0)
                } else if s1 is Err {
                    Err(s1->Err_0)
                } else if s2 is Err {
                    Err(s2->Err_0)
                } else if s3 is Err {
                    Err(s3->Err_0)
                } else if s4 is Err {
                    Err(s4->Err_0)
                } else if s5 is Err {
                    Err(s5->Err_0)
                } else if end is Err {
                    Err(end->Err_0)
                } else {
                    Ok((s0->Ok_0, s1->Ok_0, s2->Ok_0, s3->Ok_0, s4->Ok_0, s5->Ok_0))
                }
            },
            _ => Err(DeError::InvalidType(Expected::Tuple(6))),
        }
    }

    open spec fn lawful() -> bool {
        U0::lawful() && U1::lawful() && U2::lawful() && U3::lawful() && U4::lawful() && U5::lawful()
    }

    fn deserialize_as(c: &Content) -> (r: Result<(T0, T1, T2, T3, T4, T5), DeError>) {
        match c {
            Content::List(items) => {
                let e = Expected::Tuple(6);
                let mut seq = SeqAccess::new(items);
                let v0 = match next_slot::<T0, U0>(&mut seq, e) {
                    Ok(v) => v,
                    Err(x) => return Err(x),
                };
                let v1 = match next_slot::<T1, U1>(&mut seq, e) {
                    Ok(v) => v,
                    Err(x) => return Err(x),
                };
                let v2 = match next_slot::<T2, U2>(&mut seq, e) {
                    Ok(v) => v,
                    Err(x) => return Err(x),
                };
                let v3 = match next_slot::<T3, U3>(&mut seq, e) {
                    Ok(v) => v,
                    Err(x) => return Err(x),
                };
                let v4 = match next_slot::<T4, U4>(&mut seq, e) {
                    Ok(v) => v,
                    Err(x) => return Err(x),
                };
                let v5 = match next_slot::<T5, U5>(&mut seq, e) {
                    Ok(v) => v,
                    Err(x) => return Err(x),
                };
                match end_slots(&seq, e) {
                    Ok(()) => Ok((v0, v1, v2, v3, v4, v5)),
                    Err(x) => Err(x),
                }
            },
            _ => Err(DeError::InvalidType(Expected::Tuple(6))),
        }
    }
}

/// An input with fewer than 6 slots, each of which decodes, fails with a
/// length error naming the first missing slot.
pub proof fn lemma_tuple6_arity<T0: DeepView, T1: DeepView, T2: DeepView, T3: DeepView, T4: DeepView, T5: DeepView, U0: DeserializeAs<T0>, U1: DeserializeAs<T1>, U2: DeserializeAs<T2>, U3: DeserializeAs<T3>, U4: DeserializeAs<T4>, U5: DeserializeAs<T5>>(c: Content)
    requires
        c is List,
        c->List_0@.len() < 6,
        0 < c->List_0@.len() ==> U0::spec_deserialize_as(c->List_0@[0]) is Ok,
        1 < c->List_0@.len() ==> U1::spec_deserialize_as(c->List_0@[1]) is Ok,
        2 < c->List_0@.len() ==> U2::spec_deserialize_as(c->List_0@[2]) is Ok,
        3 < c->List_0@.len() ==> U3::spec_deserialize_as(c->List_0@[3]) is Ok,
        4 < c->List_0@.len() ==> U4::spec_deserialize_as(c->List_0@[4]) is Ok,
        5 < c->List_0@.len() ==> U5::spec_deserialize_as(c->List_0@[5]) is Ok,
    ensures
        <(U0, U1, U2, U3, U4, U5) as DeserializeAs<(T0, T1, T2, T3, T4, T5)>>::spec_deserialize_as(c) == Err::<(T0::V, T1::V, T2::V, T3::V, T4::V, T5::V), DeError>(
            DeError::InvalidLength(c->List_0@.len() as usize, Expected::Tuple(6)),
        ),
{
}

impl<T0: DeepView, T1: DeepView, T2: DeepView, T3: DeepView, T4: DeepView, T5: DeepView, T6: DeepView, U0: DeserializeAs<T0>, U1: DeserializeAs<T1>, U2: DeserializeAs<T2>, U3: DeserializeAs<T3>, U4: DeserializeAs<T4>, U5: DeserializeAs<T5>, U6: DeserializeAs<T6>> DeserializeAs<(T0, T1, T2, T3, T4, T5, T6)> for (U0, U1, U2, U3, U4, U5, U6) {
    open spec fn spec_deserialize_as(c: Content) -> Result<(T0::V, T1::V, T2::V, T3::V, T4::V, T5::V, T6::V), DeError> {
        match c {
            Content::List(items) => {
                let e = Expected::Tuple(7);
                let s0 = spec_slot::<T0, U0>(items@, 0, e);
                let s1 = spec_slot::<T1, U1>(items@, 1, e);
                let s2 = spec_slot::<T2, U2>(items@, 2, e);
                let s3 = spec_slot::<T3, U3>(items@, 3, e);
                let s4 = spec_slot::<T4, U4>(items@, 4, e);
                let s5 = spec_slot::<T5, U5>(items@, 5, e);
                let s6 = spec_slot::<T6, U6>(items@, 6, e);
                let end = spec_slots_end(items@, 7, e);
                if s0 is Err {
                    Err(s0->Err_0)
                } else if s1 is Err {
                    Err(s1->Err_0)
                } else if s2 is Err {
                    Err(s2->Err_0)
                } else if s3 is Err {
                    Err(s3->Err_0)
                } else if s4 is Err {
                    Err(s4->Err_0)
                } else if s5 is Err {
                    Err(s5->Err_0)
                } else if s6 is Err {
                    Err(s6->Err_0)
                } else if end is Err {
                    Err(end->Err_0)
                } else {
                    Ok((s0->Ok_0, s1->Ok_0, s2->Ok_0, s3->Ok_0, s4->Ok_0, s5->Ok_0, s6->Ok_0))
                }
            },
            _ => Err(DeError::InvalidType(Expected::Tuple(7))),
        }
    }

    open spec fn lawful() -> bool {
        U0::lawful() && U1::lawful() && U2::lawful() && U3::lawful() && U4::lawful() && U5::lawful() && U6::lawful()
    }

    fn deserialize_as(c: &Content) -> (r: Result<(T0, T1, T2, T3, T4, T5, T6), DeError>) {
        match c {
            Content::List(items) => {
                let e = Expected::Tuple(7);
                let mut seq = SeqAccess::new(items);
                let v0 = match next_slot::<T0, U0>(&mut seq, e) {
                    Ok(v) => v,
                    Err(x) => return Err(x),
                };
                let v1 = match next_slot::<T1, U1>(&mut seq, e) {
                    Ok(v) => v,
                    Err(x) => return Err(x),
                };
                let v2 = match next_slot::<T2, U2>(&mut seq, e) {
                    Ok(v) => v,
                    Err(x) => return Err(x),
                };
                let v3 = match next_slot::<T3, U3>(&mut seq, e) {
                    Ok(v) => v,
                    Err(x) => return Err(x),
                };
                let v4 = match next_slot::<T4, U4>(&mut seq, e) {
                    Ok(v) => v,
                    Err(x) => return Err(x),
                };
                let v5 = match next_slot::<T5, U5>(&mut seq, e) {
                    Ok(v) => v,
                    Err(x) => return Err(x),
                };
                let v6 = match next_slot::<T6, U6>(&mut seq, e) {
                    Ok(v) => v,
                    Err(x) => return Err(x),
                };
                match end_slots(&seq, e) {
                    Ok(()) => Ok((v0, v1, v2, v3, v4, v5, v6)),
                    Err(x) => Err(x),
                }
            },
            _ => Err(DeError::InvalidType(Expected::Tuple(7))),
        }
    }
}

/// An input with fewer than 7 slots, each of which decodes, fails with a
/// length error naming the first missing slot.
pub proof fn lemma_tuple7_arity<T0: DeepView, T1: DeepView, T2: DeepView, T3: DeepView, T4: DeepView, T5: DeepView, T6: DeepView, U0: DeserializeAs<T0>, U1: DeserializeAs<T1>, U2: DeserializeAs<T2>, U3: DeserializeAs<T3>, U4: DeserializeAs<T4>, U5: DeserializeAs<T5>, U6: DeserializeAs<T6>>(c: Content)
    requires
        c is List,
        c->List_0@.len() < 7,
        0 < c->List_0@.len() ==> U0::spec_deserialize_as(c->List_0@[0]) is Ok,
        1 < c->List_0@.len() ==> U1::spec_deserialize_as(c->List_0@[1]) is Ok,
        2 < c->List_0@.len() ==> U2::spec_deserialize_as(c->List_0@[2]) is Ok,
        3 < c->List_0@.len() ==> U3::spec_deserialize_as(c->List_0@[3]) is Ok,
        4 < c->List_0@.len() ==> U4::spec_deserialize_as(c->List_0@[4]) is Ok,
        5 < c->List_0@.len() ==> U5::spec_deserialize_as(c->List_0@[5]) is Ok,
        6 < c->List_0@.len() ==> U6::spec_deserialize_as(c->List_0@[6]) is Ok,
    ensures
        <(U0, U1, U2, U3, U4, U5, U6) as DeserializeAs<(T0, T1, T2, T3, T4, T5, T6)>>::spec_deserialize_as(c) == Err::<(T0::V, T1::V, T2::V, T3::V, T4::V, T5::V, T6::V), DeError>(
            DeError::InvalidLength(c->List_0@.len() as usize, Expected::Tuple(7)),
        ),
{
}

impl<T0: DeepView, T1: DeepView, T2: DeepView, T3: DeepView, T4: DeepView, T5: DeepView, T6: DeepView, T7: DeepView, U0: DeserializeAs<T0>, U1: DeserializeAs<T1>, U2: DeserializeAs<T2>, U3: DeserializeAs<T3>, U4: DeserializeAs<T4>, U5: DeserializeAs<T5>, U6: DeserializeAs<T6>, U7: DeserializeAs<T7>> DeserializeAs<(T0, T1, T2, T3, T4, T5, T6, T7)> for (U0, U1, U2, U3, U4, U5, U6, U7) {
    open spec fn spec_deserialize_as(c: Content) -> Result<(T0::V, T1::V, T2::V, T3::V, T4::V, T5::V, T6::V, T7::V), DeError> {
        match c {
            Content::List(items) => {
                let e = Expected::Tuple(8);
                let s0 = spec_slot::<T0, U0>(items@, 0, e);
                let s1 = spec_slot::<T1, U1>(items@, 1, e);
                let s2 = spec_slot::<T2, U2>(items@, 2, e);
                let s3 = spec_slot::<T3, U3>(items@, 3, e);
                let s4 = spec_slot::<T4, U4>(items@, 4, e);
                let s5 = spec_slot::<T5, U5>(items@, 5, e);
                let s6 = spec_slot::<T6, U6>(items@, 6, e);
                let s7 = spec_slot::<T7, U7>(items@, 7, e);
                let end = spec_slots_end(items@, 8, e);
                if s0 is Err {
                    Err(s0->Err_0)
                } else if s1 is Err {
                    Err(s1->Err_0)
                } else if s2 is Err {
                    Err(s2->Err_0)
                } else if s3 is Err {
                    Err(s3->Err_0)
                } else if s4 is Err {
                    Err(s4->Err_0)
                } else if s5 is Err {
                    Err(s5->Err_0)
                } else if s6 is Err {
                    Err(s6->Err_0)
                } else if s7 is Err {
                    Err(s7->Err_0)
                } else if end is Err {
                    Err(end->Err_0)
                } else {
                    Ok((s0->Ok_0, s1->Ok_0, s2->Ok_0, s3->Ok_0, s4->Ok_0, s5->Ok_0, s6->Ok_0, s7->Ok_0))
                }
            },
            _ => Err(DeError::InvalidType(Expected::Tuple(8))),
        }
    }

    open spec fn lawful() -> bool {
        U0::lawful() && U1::lawful() && U2::lawful() && U3::lawful() && U4::lawful() && U5::lawful() && U6::lawful() && U7::lawful()
    }

    fn deserialize_as(c: &Content) -> (r: Result<(T0, T1, T2, T3, T4, T5, T6, T7), DeError>) {
        match c {
            Content::List(items) => {
                let e = Expected::Tuple(8);
                let mut seq = SeqAccess::new(items);
                let v0 = match next_slot::<T0, U0>(&mut seq, e) {
                    Ok(v) => v,
                    Err(x) => return Err(x),
                };
                let v1 = match next_slot::<T1, U1>(&mut seq, e) {
                    Ok(v) => v,
                    Err(x) => return Err(x),
                };
                let v2 = match next_slot::<T2, U2>(&mut seq, e) {
                    Ok(v) => v,
                    Err(x) => return Err(x),
                };
                let v3 = match next_slot::<T3, U3>(&mut seq, e) {
                    Ok(v) => v,
                    Err(x) => return Err(x),
                };
                let v4 = match next_slot::<T4, U4>(&mut seq, e) {
                    Ok(v) => v,
                    Err(x) => return Err(x),
                };
                let v5 = match next_slot::<T5, U5>(&mut seq, e) {
                    Ok(v) => v,
                    Err(x) => return Err(x),
                };
                let v6 = match next_slot::<T6, U6>(&mut seq, e) {
                    Ok(v) => v,
                    Err(x) => return Err(x),
                };
                let v7 = match next_slot::<T7, U7>(&mut seq, e) {
                    Ok(v) => v,
                    Err(x) => return Err(x),
                };
                match end_slots(&seq, e) {
                    Ok(()) => Ok((v0, v1, v2, v3, v4, v5, v6, v7)),
                    Err(x) => Err(x),
                }
            },
            _ => Err(DeError::InvalidType(Expected::Tuple(8))),
        }
    }
}

/// An input with fewer than 8 slots, each of which decodes, fails with a
/// length error naming the first missing slot.
pub proof fn lemma_tuple8_arity<T0: DeepView, T1: DeepView, T2: DeepView, T3: DeepView, T4: DeepView, T5: DeepView, T6: DeepView, T7: DeepView, U0: DeserializeAs<T0>, U1: DeserializeAs<T1>, U2: DeserializeAs<T2>, U3: DeserializeAs<T3>, U4: DeserializeAs<T4>, U5: DeserializeAs<T5>, U6: DeserializeAs<T6>, U7: DeserializeAs<T7>>(c: Content)
    requires
        c is List,
        c->List_0@.len() < 8,
        0 < c->List_0@.len() ==> U0::spec_deserialize_as(c->List_0@[0]) is Ok,
        1 < c->List_0@.len() ==> U1::spec_deserialize_as(c->List_0@[1]) is Ok,
        2 < c->List_0@.len() ==> U2::spec_deserialize_as(c->List_0@[2]) is Ok,
        3 < c->List_0@.len() ==> U3::spec_deserialize_as(c->List_0@[3]) is Ok,
        4 < c->List_0@.len() ==> U4::spec_deserialize_as(c->List_0@[4]) is Ok,
        5 < c->List_0@.len() ==> U5::spec_deserialize_as(c->List_0@[5]) is Ok,
        6 < c->List_0@.len() ==> U6::spec_deserialize_as(c->List_0@[6]) is Ok,
        7 < c->List_0@.len() ==> U7::spec_deserialize_as(c->List_0@[7]) is Ok,
    ensures
        <(U0, U1, U2, U3, U4, U5, U6, U7) as DeserializeAs<(T0, T1, T2, T3, T4, T5, T6, T7)>>::spec_deserialize_as(c) == Err::<(T0::V, T1::V, T2::V, T3::V, T4::V, T5::V, T6::V, T7::V), DeError>(
            DeError::InvalidLength(c->List_0@.len() as usize, Expected::Tuple(8)),
        ),
{
}

impl<T0: DeepView, T1: DeepView, T2: DeepView, T3: DeepView, T4: DeepView, T5: DeepView, T6: DeepView, T7: DeepView, T8: DeepView, U0: DeserializeAs<T0>, U1: DeserializeAs<T1>, U2: DeserializeAs<T2>, U3: DeserializeAs<T3>, U4: DeserializeAs<T4>, U5: DeserializeAs<T5>, U6: DeserializeAs<T6>, U7: DeserializeAs<T7>, U8: DeserializeAs<T8>> DeserializeAs<(T0, T1, T2, T3, T4, T5, T6, T7, T8)> for (U0, U1, U2, U3, U4, U5, U6, U7, U8) {
    open spec fn spec_deserialize_as(c: Content) -> Result<(T0::V, T1::V, T2::V, T3::V, T4::V, T5::V, T6::V, T7::V, T8::V), DeError> {
        match c {
            Content::List(items) => {
                let e = Expected::Tuple(9);
                let s0 = spec_slot::<T0, U0>(items@, 0, e);
                let s1 = spec_slot::<T1, U1>(items@, 1, e);
                let s2 = spec_slot::<T2, U2>(items@, 2, e);
                let s3 = spec_slot::<T3, U3>(items@, 3, e);
                let s4 = spec_slot::<T4, U4>(items@, 4, e);
                let s5 = spec_slot::<T5, U5>(items@, 5, e);
                let s6 = spec_slot::<T6, U6>(items@, 6, e);
                let s7 = spec_slot::<T7, U7>(items@, 7, e);
                let s8 = spec_slot::<T8, U8>(items@, 8, e);
                let end = spec_slots_end(items@, 9, e);
                if s0 is Err {
                    Err(s0->Err_0)
                } else if s1 is Err {
                    Err(s1->Err_0)
                } else if s2 is Err {
                    Err(s2->Err_0)
                } else if s3 is Err {
                    Err(s3->Err_0)
                } else if s4 is Err {
                    Err(s4->Err_0)
                } else if s5 is Err {
                    Err(s5->Err_0)
                } else if s6 is Err {
                    Err(s6->Err_0)
                } else if s7 is Err {
                    Err(s7->Err_0)
                } else if s8 is Err {
                    Err(s8->Err_0)
                } else if end is Err {
                    Err(end->Err_0)
                } else {
                    Ok((s0->Ok_0, s1->Ok_0, s2->Ok_0, s3->Ok_0, s4->Ok_0, s5->Ok_0, s6->Ok_0, s7->Ok_0, s8->Ok_0))
                }
            },
            _ => Err(DeError::InvalidType(Expected::Tuple(9))),
        }
    }

    open spec fn lawful() -> bool {
        U0::lawful() && U1::lawful() && U2::lawful() && U3::lawful() && U4::lawful() && U5::lawful() && U6::lawful() && U7::lawful() && U8::lawful()
    }

    fn deserialize_as(c: &Content) -> (r: Result<(T0, T1, T2, T3, T4, T5, T6, T7, T8), DeError>) {
        match c {
            Content::List(items) => {
                let e = Expected::Tuple(9);
                let mut seq = SeqAccess::new(items);
                let v0 = match next_slot::<T0, U0>(&mut seq, e) {
                    Ok(v) => v,
                    Err(x) => return Err(x),
                };
                let v1 = match next_slot::<T1, U1>(&mut seq, e) {
                    Ok(v) => v,
                    Err(x) => return Err(x),
                };
                let v2 = match next_slot::<T2, U2>(&mut seq, e) {
                    Ok(v) => v,
                    Err(x) => return Err(x),
                };
                let v3 = match next_slot::<T3, U3>(&mut seq, e) {
                    Ok(v) => v,
                    Err(x) => return Err(x),
                };
                let v4 = match next_slot::<T4, U4>(&mut seq, e) {
                    Ok(v) => v,
                    Err(x) => return Err(x),
                };
                let v5 = match next_slot::<T5, U5>(&mut seq, e) {
                    Ok(v) => v,
                    Err(x) => return Err(x),
                };
                let v6 = match next_slot::<T6, U6>(&mut seq, e) {
                    Ok(v) => v,
                    Err(x) => return Err(x),
                };
                let v7 = match next_slot::<T7, U7>(&mut seq, e) {
                    Ok(v) => v,
                    Err(x) => return Err(x),
                };
                let v8 = match next_slot::<T8, U8>(&mut seq, e) {
                    Ok(v) => v,
                    Err(x) => return Err(x),
                };
                match end_slots(&seq, e) {
                    Ok(()) => Ok((v0, v1, v2, v3, v4, v5, v6, v7, v8)),
                    Err(x) => Err(x),
                }
            },
            _ => Err(DeError::InvalidType(Expected::Tuple(9))),
        }
    }
}

/// An input with fewer than 9 slots, each of which decodes, fails with a
/// length error naming the first missing slot.
pub proof fn lemma_tuple9_arity<T0: DeepView, T1: DeepView, T2: DeepView, T3: DeepView, T4: DeepView, T5: DeepView, T6: DeepView, T7: DeepView, T8: DeepView, U0: DeserializeAs<T0>, U1: DeserializeAs<T1>, U2: DeserializeAs<T2>, U3: DeserializeAs<T3>, U4: DeserializeAs<T4>, U5: DeserializeAs<T5>, U6: DeserializeAs<T6>, U7: DeserializeAs<T7>, U8: DeserializeAs<T8>>(c: Content)
    requires
        c is List,
        c->List_0@.len() < 9,
        0 < c->List_0@.len() ==> U0::spec_deserialize_as(c->List_0@[0]) is Ok,
        1 < c->List_0@.len() ==> U1::spec_deserialize_as(c->List_0@[1]) is Ok,
        2 < c->List_0@.len() ==> U2::spec_deserialize_as(c->List_0@[2]) is Ok,
        3 < c->List_0@.len() ==> U3::spec_deserialize_as(c->List_0@[3]) is Ok,
        4 < c->List_0@.len() ==> U4::spec_deserialize_as(c->List_0@[4]) is Ok,
        5 < c->List_0@.len() ==> U5::spec_deserialize_as(c->List_0@[5]) is Ok,
        6 < c->List_0@.len() ==> U6::spec_deserialize_as(c->List_0@[6]) is Ok,
        7 < c->List_0@.len() ==> U7::spec_deserialize_as(c->List_0@[7]) is Ok,
        8 < c->List_0@.len() ==> U8::spec_deserialize_as(c->List_0@[8]) is Ok,
    ensures
        <(U0, U1, U2, U3, U4, U5, U6, U7, U8) as DeserializeAs<(T0, T1, T2, T3, T4, T5, T6, T7, T8)>>::spec_deserialize_as(c) == Err::<(T0::V, T1::V, T2::V, T3::V, T4::V, T5::V, T6::V, T7::V, T8::V), DeError>(
            DeError::InvalidLength(c->List_0@.len() as usize, Expected::Tuple(9)),
        ),
{
}

impl<T0: DeepView, T1: DeepView, T2: DeepView, T3: DeepView, T4: DeepView, T5: DeepView, T6: DeepView, T7: DeepView, T8: DeepView, T9: DeepView, U0: DeserializeAs<T0>, U1: DeserializeAs<T1>, U2: DeserializeAs<T2>, U3: DeserializeAs<T3>, U4: DeserializeAs<T4>, U5: DeserializeAs<T5>, U6: DeserializeAs<T6>, U7: DeserializeAs<T7>, U8: DeserializeAs<T8>, U9: DeserializeAs<T9>> DeserializeAs<(T0, T1, T2, T3, T4, T5, T6, T7, T8, T9)> for (U0, U1, U2, U3, U4, U5, U6, U7, U8, U9) {
    open spec fn spec_deserialize_as(c: Content) -> Result<(T0::V, T1::V, T2::V, T3::V, T4::V, T5::V, T6::V, T7::V, T8::V, T9::V), DeError> {
        match c {
            Content::List(items) => {
                let e = Expected::Tuple(10);
                let s0 = spec_slot::<T0, U0>(items@, 0, e);
                let s1 = spec_slot::<T1, U1>(items@, 1, e);
                let s2 = spec_slot::<T2, U2>(items@, 2, e);
                let s3 = spec_slot::<T3, U3>(items@, 3, e);
                let s4 = spec_slot::<T4, U4>(items@, 4, e);
                let s5 = spec_slot::<T5, U5>(items@, 5, e);
                let s6 = spec_slot::<T6, U6>(items@, 6, e);
                let s7 = spec_slot::<T7, U7>(items@, 7, e);
                let s8 = spec_slot::<T8, U8>(items@, 8, e);
                let s9 = spec_slot::<T9, U9>(items@, 9, e);
                let end = spec_slots_end(items@, 10, e);
                if s0 is Err {
                    Err(s0->Err_0)
                } else if s1 is Err {
                    Err(s1->Err_0)
                } else if s2 is Err {
                    Err(s2->Err_0)
                } else if s3 is Err {
                    Err(s3->Err_0)
                } else if s4 is Err {
                    Err(s4->Err_0)
                } else if s5 is Err {
                    Err(s5->Err_0)
                } else if s6 is Err {
                    Err(s6->Err_0)
                } else if s7 is Err {
                    Err(s7->Err_0)
                } else if s8 is Err {
                    Err(s8->Err_0)
                } else if s9 is Err {
                    Err(s9->Err_0)
                } else if end is Err {
                    Err(end->Err_0)
                } else {
                    Ok((s0->Ok_0, s1->Ok_0, s2->Ok_0, s3->Ok_0, s4->Ok_0, s5->Ok_0, s6->Ok_0, s7->Ok_0, s8->Ok_0, s9->Ok_0))
                }
            },
            _ => Err(DeError::InvalidType(Expected::Tuple(10))),
        }
    }

    open spec fn lawful() -> bool {
        U0::lawful() && U1::lawful() && U2::lawful() && U3::lawful() && U4::lawful() && U5::lawful() && U6::lawful() && U7::lawful() && U8::lawful() && U9::lawful()
    }

    fn deserialize_as(c: &Content) -> (r: Result<(T0, T1, T2, T3, T4, T5, T6, T7, T8, T9), DeError>) {
        match c {
            Content::List(items) => {
                let e = Expected::Tuple(10);
                let mut seq = SeqAccess::new(items);
                let v0 = match next_slot::<T0, U0>(&mut seq, e) {
                    Ok(v) => v,
                    Err(x) => return Err(x),
                };
                let v1 = match next_slot::<T1, U1>(&mut seq, e) {
                    Ok(v) => v,
                    Err(x) => return Err(x),
                };
                let v2 = match next_slot::<T2, U2>(&mut seq, e) {
                    Ok(v) => v,
                    Err(x) => return Err(x),
                };
                let v3 = match next_slot::<T3, U3>(&mut seq, e) {
                    Ok(v) => v,
                    Err(x) => return Err(x),
                };
                let v4 = match next_slot::<T4, U4>(&mut seq, e) {
                    Ok(v) => v,
                    Err(x) => return Err(x),
                };
                let v5 = match next_slot::<T5, U5>(&mut seq, e) {
                    Ok(v) => v,
                    Err(x) => return Err(x),
                };
                let v6 = match next_slot::<T6, U6>(&mut seq, e) {
                    Ok(v) => v,
                    Err(x) => return Err(x),
                };
                let v7 = match next_slot::<T7, U7>(&mut seq, e) {
                    Ok(v) => v,
                    Err(x) => return Err(x),
                };
                let v8 = match next_slot::<T8, U8>(&mut seq, e) {
                    Ok(v) => v,
                    Err(x) => return Err(x),
                };
                let v9 = match next_slot::<T9, U9>(&mut seq, e) {
                    Ok(v) => v,
                    Err(x) => return Err(x),
                };
                match end_slots(&seq, e) {
                    Ok(()) => Ok((v0, v1, v2, v3, v4, v5, v6, v7, v8, v9)),
                    Err(x) => Err(x),
                }
            },
            _ => Err(DeError::InvalidType(Expected::Tuple(10))),
        }
    }
}

/// An input with fewer than 10 slots, each of which decodes, fails with a
/// length error naming the first missing slot.
pub proof fn lemma_tuple10_arity<T0: DeepView, T1: DeepView, T2: DeepView, T3: DeepView, T4: DeepView, T5: DeepView, T6: DeepView, T7: DeepView, T8: DeepView, T9: DeepView, U0: DeserializeAs<T0>, U1: DeserializeAs<T1>, U2: DeserializeAs<T2>, U3: DeserializeAs<T3>, U4: DeserializeAs<T4>, U5: DeserializeAs<T5>, U6: DeserializeAs<T6>, U7: DeserializeAs<T7>, U8: DeserializeAs<T8>, U9: DeserializeAs<T9>>(c: Content)
    requires
        c is List,
        c->List_0@.len() < 10,
        0 < c->List_0@.len() ==> U0::spec_deserialize_as(c->List_0@[0]) is Ok,
        1 < c->List_0@.len() ==> U1::spec_deserialize_as(c->List_0@[1]) is Ok,
        2 < c->List_0@.len() ==> U2::spec_deserialize_as(c->List_0@[2]) is Ok,
        3 < c->List_0@.len() ==> U3::spec_deserialize_as(c->List_0@[3]) is Ok,
        4 < c->List_0@.len() ==> U4::spec_deserialize_as(c->List_0@[4]) is Ok,
        5 < c->List_0@.len() ==> U5::spec_deserialize_as(c->List_0@[5]) is Ok,
        6 < c->List_0@.len() ==> U6::spec_deserialize_as(c->List_0@[6]) is Ok,
        7 < c->List_0@.len() ==> U7::spec_deserialize_as(c->List_0@[7]) is Ok,
        8 < c->List_0@.len() ==> U8::spec_deserialize_as(c->List_0@[8]) is Ok,
        9 < c->List_0@.len() ==> U9::spec_deserialize_as(c->List_0@[9]) is Ok,
    ensures
        <(U0, U1, U2, U3, U4, U5, U6, U7, U8, U9) as DeserializeAs<(T0, T1, T2, T3, T4, T5, T6, T7, T8, T9)>>::spec_deserialize_as(c) == Err::<(T0::V, T1::V, T2::V, T3::V, T4::V, T5::V, T6::V, T7::V, T8::V, T9::V), DeError>(
            DeError::InvalidLength(c->List_0@.len() as usize, Expected::Tuple(10)),
        ),
{
}

impl<T0: DeepView, T1: DeepView, T2: DeepView, T3: DeepView, T4: DeepView, T5: DeepView, T6: DeepView, T7: DeepView, T8: DeepView, T9: DeepView, T10: DeepView, U0: DeserializeAs<T0>, U1: DeserializeAs<T1>, U2: DeserializeAs<T2>, U3: DeserializeAs<T3>, U4: DeserializeAs<T4>, U5: DeserializeAs<T5>, U6: DeserializeAs<T6>, U7: DeserializeAs<T7>, U8: DeserializeAs<T8>, U9: DeserializeAs<T9>, U10: DeserializeAs<T10>> DeserializeAs<(T0, T1, T2, T3, T4, T5, T6, T7, T8, T9, T10)> for (U0, U1, U2, U3, U4, U5, U6, U7, U8, U9, U10) {
    open spec fn spec_deserialize_as(c: Content) -> Result<(T0::V, T1::V, T2::V, T3::V, T4::V, T5::V, T6::V, T7::V, T8::V, T9::V, T10::V), DeError> {
        match c {
            Content::List(items) => {
                let e = Expected::Tuple(11);
                let s0 = spec_slot::<T0, U0>(items@, 0, e);
                let s1 = spec_slot::<T1, U1>(items@, 1, e);
                let s2 = spec_slot::<T2, U2>(items@, 2, e);
                let s3 = spec_slot::<T3, U3>(items@, 3, e);
                let s4 = spec_slot::<T4, U4>(items@, 4, e);
                let s5 = spec_slot::<T5, U5>(items@, 5, e);
                let s6 = spec_slot::<T6, U6>(items@, 6, e);
                let s7 = spec_slot::<T7, U7>(items@, 7, e);
                let s8 = spec_slot::<T8, U8>(items@, 8, e);
                let s9 = spec_slot::<T9, U9>(items@, 9, e);
                let s10 = spec_slot::<T10, U10>(items@, 10, e);
                let end = spec_slots_end(items@, 11, e);
                if s0 is Err {
                    Err(s0->Err_0)
                } else if s1 is Err {
                    Err(s1->Err_0)
                } else if s2 is Err {
                    Err(s2->Err_0)
                } else if s3 is Err {
                    Err(s3->Err_0)
                } else if s4 is Err {
                    Err(s4->Err_0)
                } else if s5 is Err {
                    Err(s5->Err_0)
                } else if s6 is Err {
                    Err(s6->Err_0)
                } else if s7 is Err {
                    Err(s7->Err_0)
                } else if s8 is Err {
                    Err(s8->Err_0)
                } else if s9 is Err {
                    Err(s9->Err_0)
                } else if s10 is Err {
                    Err(s10->Err_0)
                } else if end is Err {
                    Err(end->Err_0)
                } else {
                    Ok((s0->Ok_0, s1->Ok_0, s2->Ok_0, s3->Ok_0, s4->Ok_0, s5->Ok_0, s6->Ok_0, s7->Ok_0, s8->Ok_0, s9->Ok_0, s10->Ok_0))
                }
            },
            _ => Err(DeError::InvalidType(Expected::Tuple(11))),
        }
    }

    open spec fn lawful() -> bool {
        U0::lawful() && U1::lawful() && U2::lawful() && U3::lawful() && U4::lawful() && U5::lawful() && U6::lawful() && U7::lawful() && U8::lawful() && U9::lawful() && U10::lawful()
    }

    fn deserialize_as(c: &Content) -> (r: Result<(T0, T1, T2, T3, T4, T5, T6, T7, T8, T9, T10), DeError>) {
        match c {
            Content::List(items) => {
                let e = Expected::Tuple(11);
                let mut seq = SeqAccess::new(items);
                let v0 = match next_slot::<T0, U0>(&mut seq, e) {
                    Ok(v) => v,
                    Err(x) => return Err(x),
                };
                let v1 = match next_slot::<T1, U1>(&mut seq, e) {
                    Ok(v) => v,
                    Err(x) => return Err(x),
                };
                let v2 = match next_slot::<T2, U2>(&mut seq, e) {
                    Ok(v) => v,
                    Err(x) => return Err(x),
                };
                let v3 = match next_slot::<T3, U3>(&mut seq, e) {
                    Ok(v) => v,
                    Err(x) => return Err(x),
                };
                let v4 = match next_slot::<T4, U4>(&mut seq, e) {
                    Ok(v) => v,
                    Err(x) => return Err(x),
                };
                let v5 = match next_slot::<T5, U5>(&mut seq, e) {
                    Ok(v) => v,
                    Err(x) => return Err(x),
                };
                let v6 = match next_slot::<T6, U6>(&mut seq, e) {
                    Ok(v) => v,
                    Err(x) => return Err(x),
                };
                let v7 = match next_slot::<T7, U7>(&mut seq, e) {
                    Ok(v) => v,
                    Err(x) => return Err(x),
                };
                let v8 = match next_slot::<T8, U8>(&mut seq, e) {
                    Ok(v) => v,
                    Err(x) => return Err(x),
                };
                let v9 = match next_slot::<T9, U9>(&mut seq, e) {
                    Ok(v) => v,
                    Err(x) => return Err(x),
                };
                let v10 = match next_slot::<T10, U10>(&mut seq, e) {
                    Ok(v) => v,
                    Err(x) => return Err(x),
                };
                match end_slots(&seq, e) {
                    Ok(()) => Ok((v0, v1, v2, v3, v4, v5, v6, v7, v8, v9, v10)),
                    Err(x) => Err(x),
                }
            },
            _ => Err(DeError::InvalidType(Expected::Tuple(11))),
        }
    }
}

/// An input with fewer than 11 slots, each of which decodes, fails with a
/// length error naming the first missing slot.
pub proof fn lemma_tuple11_arity<T0: DeepView, T1: DeepView, T2: DeepView, T3: DeepView, T4: DeepView, T5: DeepView, T6: DeepView, T7: DeepView, T8: DeepView, T9: DeepView, T10: DeepView, U0: DeserializeAs<T0>, U1: DeserializeAs<T1>, U2: DeserializeAs<T2>, U3: DeserializeAs<T3>, U4: DeserializeAs<T4>, U5: DeserializeAs<T5>, U6: DeserializeAs<T6>, U7: DeserializeAs<T7>, U8: DeserializeAs<T8>, U9: DeserializeAs<T9>, U10: DeserializeAs<T10>>(c: Content)
    requires
        c is List,
        c->List_0@.len() < 11,
        0 < c->List_0@.len() ==> U0::spec_deserialize_as(c->List_0@[0]) is Ok,
        1 < c->List_0@.len() ==> U1::spec_deserialize_as(c->List_0@[1]) is Ok,
        2 < c->List_0@.len() ==> U2::spec_deserialize_as(c->List_0@[2]) is Ok,
        3 < c->List_0@.len() ==> U3::spec_deserialize_as(c->List_0@[3]) is Ok,
        4 < c->List_0@.len() ==> U4::spec_deserialize_as(c->List_0@[4]) is Ok,
        5 < c->List_0@.len() ==> U5::spec_deserialize_as(c->List_0@[5]) is Ok,
        6 < c->List_0@.len() ==> U6::spec_deserialize_as(c->List_0@[6]) is Ok,
        7 < c->List_0@.len() ==> U7::spec_deserialize_as(c->List_0@[7]) is Ok,
        8 < c->List_0@.len() ==> U8::spec_deserialize_as(c->List_0@[8]) is Ok,
        9 < c->List_0@.len() ==> U9::spec_deserialize_as(c->List_0@[9]) is Ok,
        10 < c->List_0@.len() ==> U10::spec_deserialize_as(c->List_0@[10]) is Ok,
    ensures
        <(U0, U1, U2, U3, U4, U5, U6, U7, U8, U9, U10) as DeserializeAs<(T0, T1, T2, T3, T4, T5, T6, T7, T8, T9, T10)>>::spec_deserialize_as(c) == Err::<(T0::V, T1::V, T2::V, T3::V, T4::V, T5::V, T6::V, T7::V, T8::V, T9::V, T10::V), DeError>(
            DeError::InvalidLength(c->List_0@.len() as usize, Expected::Tuple(11)),
        ),
{
}

impl<T0: DeepView, T1: DeepView, T2: DeepView, T3: DeepView, T4: DeepView, T5: DeepView, T6: DeepView, T7: DeepView, T8: DeepView, T9: DeepView, T10: DeepView, T11: DeepView, U0: DeserializeAs<T0>, U1: DeserializeAs<T1>, U2: DeserializeAs<T2>, U3: DeserializeAs<T3>, U4: DeserializeAs<T4>, U5: DeserializeAs<T5>, U6: DeserializeAs<T6>, U7: DeserializeAs<T7>, U8: DeserializeAs<T8>, U9: DeserializeAs<T9>, U10: DeserializeAs<T10>, U11: DeserializeAs<T11>> DeserializeAs<(T0, T1, T2, T3, T4, T5, T6, T7, T8, T9, T10, T11)> for (U0, U1, U2, U3, U4, U5, U6, U7, U8, U9, U10, U11) {
    open spec fn spec_deserialize_as(c: Content) -> Result<(T0::V, T1::V, T2::V, T3::V, T4::V, T5::V, T6::V, T7::V, T8::V, T9::V, T10::V, T11::V), DeError> {
        match c {
            Content::List(items) => {
                let e = Expected::Tuple(12);
                let s0 = spec_slot::<T0, U0>(items@, 0, e);
                let s1 = spec_slot::<T1, U1>(items@, 1, e);
                let s2 = spec_slot::<T2, U2>(items@, 2, e);
                let s3 = spec_slot::<T3, U3>(items@, 3, e);
                let s4 = spec_slot::<T4, U4>(items@, 4, e);
                let s5 = spec_slot::<T5, U5>(items@, 5, e);
                let s6 = spec_slot::<T6, U6>(items@, 6, e);
                let s7 = spec_slot::<T7, U7>(items@, 7, e);
                let s8 = spec_slot::<T8, U8>(items@, 8, e);
                let s9 = spec_slot::<T9, U9>(items@, 9, e);
                let s10 = spec_slot::<T10, U10>(items@, 10, e);
                let s11 = spec_slot::<T11, U11>(items@, 11, e);
                let end = spec_slots_end(items@, 12, e);
                if s0 is Err {
                    Err(s0->Err_0)
                } else if s1 is Err {
                    Err(s1->Err_0)
                } else if s2 is Err {
                    Err(s2->Err_0)
                } else if s3 is Err {
                    Err(s3->Err_0)
                } else if s4 is Err {
                    Err(s4->Err_0)
                } else if s5 is Err {
                    Err(s5->Err_0)
                } else if s6 is Err {
                    Err(s6->Err_0)
                } else if s7 is Err {
                    Err(s7->Err_0)
                } else if s8 is Err {
                    Err(s8->Err_0)
                } else if s9 is Err {
                    Err(s9->Err_0)
                } else if s10 is Err {
                    Err(s10->Err_0)
                } else if s11 is Err {
                    Err(s11->Err_0)
                } else if end is Err {
                    Err(end->Err_0)
                } else {
                    Ok((s0->Ok_0, s1->Ok_0, s2->Ok_0, s3->Ok_0, s4->Ok_0, s5->Ok_0, s6->Ok_0, s7->Ok_0, s8->Ok_0, s9->Ok_0, s10->Ok_0, s11->Ok_0))
                }
            },
            _ => Err(DeError::InvalidType(Expected::Tuple(12))),
        }
    }

    open spec fn lawful() -> bool {
        U0::lawful() && U1::lawful() && U2::lawful() && U3::lawful() && U4::lawful() && U5::lawful() && U6::lawful() && U7::lawful() && U8::lawful() && U9::lawful() && U10::lawful() && U11::lawful()
    }

    fn deserialize_as(c: &Content) -> (r: Result<(T0, T1, T2, T3, T4, T5, T6, T7, T8, T9, T10, T11), DeError>) {
        match c {
            Content::List(items) => {
                let e = Expected::Tuple(12);
                let mut seq = SeqAccess::new(items);
                let v0 = match next_slot::<T0, U0>(&mut seq, e) {
                    Ok(v) => v,
                    Err(x) => return Err(x),
                };
                let v1 = match next_slot::<T1, U1>(&mut seq, e) {
                    Ok(v) => v,
                    Err(x) => return Err(x),
                };
                let v2 = match next_slot::<T2, U2>(&mut seq, e) {
                    Ok(v) => v,
                    Err(x) => return Err(x),
                };
                let v3 = match next_slot::<T3, U3>(&mut seq, e) {
                    Ok(v) => v,
                    Err(x) => return Err(x),
                };
                let v4 = match next_slot::<T4, U4>(&mut seq, e) {
                    Ok(v) => v,
                    Err(x) => return Err(x),
                };
                let v5 = match next_slot::<T5, U5>(&mut seq, e) {
                    Ok(v) => v,
                    Err(x) => return Err(x),
                };
                let v6 = match next_slot::<T6, U6>(&mut seq, e) {
                    Ok(v) => v,
                    Err(x) => return Err(x),
                };
                let v7 = match next_slot::<T7, U7>(&mut seq, e) {
                    Ok(v) => v,
                    Err(x) => return Err(x),
                };
                let v8 = match next_slot::<T8, U8>(&mut seq, e) {
                    Ok(v) => v,
                    Err(x) => return Err(x),
                };
                let v9 = match next_slot::<T9, U9>(&mut seq, e) {
                    Ok(v) => v,
                    Err(x) => return Err(x),
                };
                let v10 = match next_slot::<T10, U10>(&mut seq, e) {
                    Ok(v) => v,
                    Err(x) => return Err(x),
                };
                let v11 = match next_slot::<T11, U11>(&mut seq, e) {
                    Ok(v) => v,
                    Err(x) => return Err(x),
                };
                match end_slots(&seq, e) {
                    Ok(()) => Ok((v0, v1, v2, v3, v4, v5, v6, v7, v8, v9, v10, v11)),
                    Err(x) => Err(x),
                }
            },
            _ => Err(DeError::InvalidType(Expected::Tuple(12))),
        }
    }
}

/// An input with fewer than 12 slots, each of which decodes, fails with a
/// length error naming the first missing slot.
pub proof fn lemma_tuple12_arity<T0: DeepView, T1: DeepView, T2: DeepView, T3: DeepView, T4: DeepView, T5: DeepView, T6: DeepView, T7: DeepView, T8: DeepView, T9: DeepView, T10: DeepView, T11: DeepView, U0: DeserializeAs<T0>, U1: DeserializeAs<T1>, U2: DeserializeAs<T2>, U3: DeserializeAs<T3>, U4: DeserializeAs<T4>, U5: DeserializeAs<T5>, U6: DeserializeAs<T6>, U7: DeserializeAs<T7>, U8: DeserializeAs<T8>, U9: DeserializeAs<T9>, U10: DeserializeAs<T10>, U11: DeserializeAs<T11>>(c: Content)
    requires
        c is List,
        c->List_0@.len() < 12,
        0 < c->List_0@.len() ==> U0::spec_deserialize_as(c->List_0@[0]) is Ok,
        1 < c->List_0@.len() ==> U1::spec_deserialize_as(c->List_0@[1]) is Ok,
        2 < c->List_0@.len() ==> U2::spec_deserialize_as(c->List_0@[2]) is Ok,
        3 < c->List_0@.len() ==> U3::spec_deserialize_as(c->List_0@[3]) is Ok,
        4 < c->List_0@.len() ==> U4::spec_deserialize_as(c->List_0@[4]) is Ok,
        5 < c->List_0@.len() ==> U5::spec_deserialize_as(c->List_0@[5]) is Ok,
        6 < c->List_0@.len() ==> U6::spec_deserialize_as(c->List_0@[6]) is Ok,
        7 < c->List_0@.len() ==> U7::spec_deserialize_as(c->List_0@[7]) is Ok,
        8 < c->List_0@.len() ==> U8::spec_deserialize_as(c->List_0@[8]) is Ok,
        9 < c->List_0@.len() ==> U9::spec_deserialize_as(c->List_0@[9]) is Ok,
        10 < c->List_0@.len() ==> U10::spec_deserialize_as(c->List_0@[10]) is Ok,
        11 < c->List_0@.len() ==> U11::spec_deserialize_as(c->List_0@[11]) is Ok,
    ensures
        <(U0, U1, U2, U3, U4, U5, U6, U7, U8, U9, U10, U11) as DeserializeAs<(T0, T1, T2, T3, T4, T5, T6, T7, T8, T9, T10, T11)>>::spec_deserialize_as(c) == Err::<(T0::V, T1::V, T2::V, T3::V, T4::V, T5::V, T6::V, T7::V, T8::V, T9::V, T10::V, T11::V), DeError>(
            DeError::InvalidLength(c->List_0@.len() as usize, Expected::Tuple(12)),
        ),
{
}

} // verus!
