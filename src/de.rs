use vstd::prelude::*;
use crate::content::{Content, DeError, Expected};
use std::marker::PhantomData;
pub use vstd::view::DeepView;

verus! {

/// The deep view of a decode result: what a contract compares against.
pub open spec fn result_view<T: DeepView>(r: Result<T, DeError>) -> Result<T::V, DeError> {
    match r {
        Ok(t) => Ok(t.deep_view()),
        Err(e) => Err(e),
    }
}

/// A type's own canonical decoder.
pub trait Decode: DeepView + Sized {
    /// What decoding `c` gives, as a model value or an error.
    spec fn spec_decode(c: Content) -> Result<Self::V, DeError>;

    fn decode(c: &Content) -> (r: Result<Self, DeError>)
        ensures
            result_view(r) == Self::spec_decode(*c),
    ;
}

/// The capability "decode a `T` from structured input, using the strategy
/// that the implementing marker type stands for".
pub trait DeserializeAs<T: DeepView> {
    /// What decoding `c` with this strategy gives.
    spec fn spec_deserialize_as(c: Content) -> Result<T::V, DeError>;

    /// Holds when every key type that this strategy builds maps of has a
    /// lawful order and a one-to-one view; always true of strategies that
    /// build no map.
    spec fn lawful() -> bool;

    fn deserialize_as(c: &Content) -> (r: Result<T, DeError>)
        requires
            Self::lawful(),
        ensures
            result_view(r) == Self::spec_deserialize_as(*c),
    ;
}

impl Decode for u64 {
    /// Either integer form, when its value fits.
    open spec fn spec_decode(c: Content) -> Result<u64, DeError> {
        match c {
            Content::U64(n) => Ok(n),
            Content::I64(n) => if n >= 0 {
                Ok(n as u64)
            } else {
                Err(DeError::InvalidType(Expected::U64))
            },
            _ => Err(DeError::InvalidType(Expected::U64)),
        }
    }

    fn decode(c: &Content) -> (r: Result<u64, DeError>) {
        match c {
            Content::U64(n) => Ok(*n),
            Content::I64(n) => if *n >= 0 {
                Ok(*n as u64)
            } else {
                Err(DeError::InvalidType(Expected::U64))
            },
            _ => Err(DeError::InvalidType(Expected::U64)),
        }
    }
}

impl Decode for i64 {
    /// Either integer form, when its value fits.
    open spec fn spec_decode(c: Content) -> Result<i64, DeError> {
        match c {
            Content::I64(n) => Ok(n),
            Content::U64(n) => if n <= i64::MAX {
                Ok(n as i64)
            } else {
                Err(DeError::InvalidType(Expected::I64))
            },
            _ => Err(DeError::InvalidType(Expected::I64)),
        }
    }

    fn decode(c: &Content) -> (r: Result<i64, DeError>) {
        match c {
            Content::I64(n) => Ok(*n),
            Content::U64(n) => if *n <= i64::MAX as u64 {
                Ok(*n as i64)
            } else {
                Err(DeError::InvalidType(Expected::I64))
            },
            _ => Err(DeError::InvalidType(Expected::I64)),
        }
    }
}

impl Decode for bool {
    open spec fn spec_decode(c: Content) -> Result<bool, DeError> {
        match c {
            Content::Bool(b) => Ok(b),
            _ => Err(DeError::InvalidType(Expected::Bool)),
        }
    }

    fn decode(c: &Content) -> (r: Result<bool, DeError>) {
        match c {
            Content::Bool(b) => Ok(*b),
            _ => Err(DeError::InvalidType(Expected::Bool)),
        }
    }
}

impl Decode for () {
    open spec fn spec_decode(c: Content) -> Result<(), DeError> {
        match c {
            Content::Unit => Ok(()),
            _ => Err(DeError::InvalidType(Expected::Unit)),
        }
    }

    fn decode(c: &Content) -> (r: Result<(), DeError>) {
        match c {
            Content::Unit => Ok(()),
            _ => Err(DeError::InvalidType(Expected::Unit)),
        }
    }
}

impl Decode for String {
    open spec fn spec_decode(c: Content) -> Result<Seq<char>, DeError> {
        match c {
            Content::Str(s) => Ok(s@),
            _ => Err(DeError::InvalidType(Expected::Str)),
        }
    }

    fn decode(c: &Content) -> (r: Result<String, DeError>) {
        match c {
            Content::Str(s) => Ok(s.clone()),
            _ => Err(DeError::InvalidType(Expected::Str)),
        }
    }
}

/// Identity strategy: decode with the type's own decoder.
pub struct Same;

/// Identity strategy naming the type explicitly.
pub struct SameAs<T> {
    marker: PhantomData<T>,
}

impl<T: Decode> DeserializeAs<T> for Same {
    open spec fn spec_deserialize_as(c: Content) -> Result<T::V, DeError> {
        T::spec_decode(c)
    }

    open spec fn lawful() -> bool {
        true
    }

    fn deserialize_as(c: &Content) -> (r: Result<T, DeError>) {
        T::decode(c)
    }
}

impl<T: Decode> DeserializeAs<T> for SameAs<T> {
    open spec fn spec_deserialize_as(c: Content) -> Result<T::V, DeError> {
        T::spec_decode(c)
    }

    open spec fn lawful() -> bool {
        true
    }

    fn deserialize_as(c: &Content) -> (r: Result<T, DeError>) {
        T::decode(c)
    }
}

/// Carries one element decoded with strategy `U` until the enclosing rule
/// takes the value out.
pub struct DeserializeAsWrap<T, U> {
    value: T,
    marker: PhantomData<U>,
}

impl<T: DeepView, U: DeserializeAs<T>> DeserializeAsWrap<T, U> {
    pub closed spec fn inner(&self) -> T {
        self.value
    }

    /// Decodes exactly one element with strategy `U`.
    pub fn deserialize(c: &Content) -> (r: Result<Self, DeError>)
        requires
            U::lawful(),
        ensures
            match r {
                Ok(w) => U::spec_deserialize_as(*c) == Ok::<T::V, DeError>(w.inner().deep_view()),
                Err(e) => U::spec_deserialize_as(*c) == Err::<T::V, DeError>(e),
            },
    {
        match U::deserialize_as(c) {
            Ok(value) => Ok(DeserializeAsWrap { value, marker: PhantomData }),
            Err(e) => Err(e),
        }
    }

    pub fn into_inner(self) -> (r: T)
        ensures
            r == self.inner(),
    {
        self.value
    }
}

/// Decoding with either identity strategy gives exactly what the type's
/// own decoder gives on the same input: the same value or the same error.
pub proof fn lemma_identity_round_trip<T: Decode>(c: Content)
    ensures
        <Same as DeserializeAs<T>>::spec_deserialize_as(c) == T::spec_decode(c),
        <SameAs<T> as DeserializeAs<T>>::spec_deserialize_as(c) == T::spec_decode(c),
{
}

/// Most elements preallocated from an input's size hint.
pub const MAX_PREALLOCATION: usize = 4096;

/// The capacity to reserve for a size hint that is not trusted.
pub fn cautious_capacity(hint: usize) -> (r: usize)
    ensures
        r == if hint < MAX_PREALLOCATION { hint } else { MAX_PREALLOCATION },
{
    if hint < MAX_PREALLOCATION {
        hint
    } else {
        MAX_PREALLOCATION
    }
}

/// A cursor over the entries of a sequence input, handing them out one at a
/// time in document order.
pub struct SeqAccess<'a> {
    items: &'a Vec<Content>,
    pos: usize,
}

impl<'a> SeqAccess<'a> {
    pub closed spec fn items(&self) -> Seq<Content> {
        self.items@
    }

    /// How many entries have been read.
    pub closed spec fn pos(&self) -> int {
        self.pos as int
    }

    pub open spec fn wf(&self) -> bool {
        0 <= self.pos() <= self.items().len()
    }

    pub fn new(items: &'a Vec<Content>) -> (r: Self)
        ensures
            r.wf(),
            r.items() == items@,
            r.pos() == 0,
    {
        SeqAccess { items, pos: 0 }
    }

    /// The number of entries read so far.
    pub fn position(&self) -> (r: usize)
        ensures
            r == self.pos(),
    {
        self.pos
    }

    /// The number of entries in all.
    pub fn len(&self) -> (r: usize)
        ensures
            r == self.items().len(),
    {
        self.items.len()
    }

    /// The number of entries not read yet.
    pub fn size_hint(&self) -> (r: usize)
        requires
            self.wf(),
        ensures
            r == self.items().len() - self.pos(),
    {
        self.items.len() - self.pos
    }

    /// Reads the next entry with strategy `U`, or `None` at the end.
    pub fn next_element<T: DeepView, U: DeserializeAs<T>>(&mut self) -> (r: Result<Option<T>, DeError>)
        requires
            old(self).wf(),
            U::lawful(),
        ensures
            final(self).wf(),
            final(self).items() == old(self).items(),
            old(self).pos() == old(self).items().len() ==> (r matches Ok(None)) && final(self).pos()
                == old(self).pos(),
            old(self).pos() < old(self).items().len() ==> final(self).pos() == old(self).pos() + 1
                && match r {
                Ok(Some(t)) => U::spec_deserialize_as(old(self).items()[old(self).pos()]) == Ok::<
                    T::V,
                    DeError,
                >(t.deep_view()),
                Ok(None) => false,
                Err(e) => U::spec_deserialize_as(old(self).items()[old(self).pos()]) == Err::<
                    T::V,
                    DeError,
                >(e),
            },
    {
        if self.pos == self.items.len() {
            return Ok(None);
        }
        let c = &self.items[self.pos];
        self.pos = self.pos + 1;
        match DeserializeAsWrap::<T, U>::deserialize(c) {
            Ok(w) => Ok(Some(w.into_inner())),
            Err(e) => Err(e),
        }
    }
}

} // verus!
