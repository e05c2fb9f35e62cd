//! Decoding a value of one type "as" another: a strategy type selects how a
//! structured input is read, and rules lift strategies for elements to
//! strategies for optional values, sequences, maps, tuples and arrays.
pub mod content;
pub mod de;
pub mod sequence;
pub mod option;
pub mod tuple;
pub mod array;
pub mod strings;
pub mod map;
