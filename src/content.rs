use vstd::prelude::*;

verus! {

/// A structured input document: the values an input source can hand out,
/// held as plain data so that decoding rules can be stated over them.
pub enum Content {
    Unit,
    Bool(bool),
    U64(u64),
    I64(i64),
    Str(String),
    Null,
    Present(Box<Content>),
    List(Vec<Content>),
    Entries(Vec<(Content, Content)>),
}

/// What a decoding step expected to find, carried by its errors.
#[derive(PartialEq, Eq, Structural, Clone, Copy, Debug)]
pub enum Expected {
    Unit,
    Bool,
    U64,
    I64,
    Str,
    AnyString,
    Sequence,
    Mapping,
    Tuple(usize),
    Array(usize),
}

/// Why a text token could not be parsed into the requested type.
#[derive(PartialEq, Eq, Structural, Clone, Copy, Debug)]
pub enum ParseFailure {
    Empty,
    InvalidDigit,
    Overflow,
    Underflow,
    NotBool,
}

/// A decode error.
#[derive(PartialEq, Eq, Structural, Clone, Copy, Debug)]
pub enum DeError {
    /// The input's structural kind is not the one expected.
    InvalidType(Expected),
    /// A fixed-arity aggregate found the wrong number of slots; the index is
    /// the first missing slot, or the total count when there were too many.
    InvalidLength(usize, Expected),
    /// A text token did not parse.
    Parse(ParseFailure),
}

} // verus!
