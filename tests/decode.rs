use serde_as_core::content::{Content, DeError, Expected, ParseFailure};
use serde_as_core::de::{
    cautious_capacity, Decode, DeserializeAs, DeserializeAsWrap, Same, SameAs, SeqAccess,
};
use serde_as_core::option::probe_option;
use serde_as_core::sequence::visit_seq_as;
use serde_as_core::strings::{DisplayFromStr, NoneAsEmptyString};
use std::collections::{BTreeMap, HashMap};

fn list(items: Vec<Content>) -> Content {
    Content::List(items)
}

fn s(text: &str) -> Content {
    Content::Str(text.to_string())
}

fn u(n: u64) -> Content {
    Content::U64(n)
}

#[test]
fn identity_matches_canonical_decoder() {
    let inputs = vec![u(5), s("x"), Content::Bool(true), Content::Unit];
    for c in &inputs {
        let canonical = u64::decode(c);
        let same = <Same as DeserializeAs<u64>>::deserialize_as(c);
        let same_as = <SameAs<u64> as DeserializeAs<u64>>::deserialize_as(c);
        assert_eq!(canonical, same);
        assert_eq!(canonical, same_as);
    }
    assert_eq!(<Same as DeserializeAs<u64>>::deserialize_as(&u(5)), Ok(5));
    assert_eq!(
        <Same as DeserializeAs<u64>>::deserialize_as(&s("5")),
        Err(DeError::InvalidType(Expected::U64))
    );
    assert_eq!(
        <Same as DeserializeAs<String>>::deserialize_as(&s("hi")),
        Ok("hi".to_string())
    );
    assert_eq!(<Same as DeserializeAs<i64>>::deserialize_as(&Content::I64(-3)), Ok(-3));
    assert_eq!(<Same as DeserializeAs<bool>>::deserialize_as(&Content::Bool(false)), Ok(false));
    assert_eq!(<Same as DeserializeAs<()>>::deserialize_as(&Content::Unit), Ok(()));
}

#[test]
fn sequence_keeps_length_and_order() {
    let c = list(vec![u(3), u(1), u(2)]);
    assert_eq!(<Vec<Same> as DeserializeAs<Vec<u64>>>::deserialize_as(&c), Ok(vec![3, 1, 2]));
    let empty = list(vec![]);
    assert_eq!(<Vec<Same> as DeserializeAs<Vec<u64>>>::deserialize_as(&empty), Ok(vec![]));
}

#[test]
fn sequence_rejects_non_sequence() {
    assert_eq!(
        <Vec<Same> as DeserializeAs<Vec<u64>>>::deserialize_as(&u(1)),
        Err(DeError::InvalidType(Expected::Sequence))
    );
}

#[test]
fn sequence_with_inner_adapter() {
    let c = list(vec![s("10"), s("+20")]);
    assert_eq!(
        <Vec<DisplayFromStr> as DeserializeAs<Vec<u64>>>::deserialize_as(&c),
        Ok(vec![10, 20])
    );
}

#[test]
fn sequence_fails_fast_on_third_element() {
    let items = vec![u(1), u(2), s("bad"), u(4), s("also bad")];
    let mut seq = SeqAccess::new(&items);
    let r = visit_seq_as::<u64, Same>(&mut seq);
    assert_eq!(r, Err(DeError::InvalidType(Expected::U64)));
    assert_eq!(seq.position(), 3);
    let c = list(items.iter().map(|c| match c {
        Content::U64(n) => u(*n),
        Content::Str(t) => s(t),
        _ => Content::Unit,
    }).collect());
    assert_eq!(
        <Vec<Same> as DeserializeAs<Vec<u64>>>::deserialize_as(&c),
        Err(DeError::InvalidType(Expected::U64))
    );
}

#[test]
fn sequence_access_reads_in_order() {
    let items = vec![u(7), u(8)];
    let mut seq = SeqAccess::new(&items);
    assert_eq!(seq.size_hint(), 2);
    assert_eq!(seq.len(), 2);
    assert_eq!(seq.next_element::<u64, Same>(), Ok(Some(7)));
    assert_eq!(seq.next_element::<u64, Same>(), Ok(Some(8)));
    assert_eq!(seq.next_element::<u64, Same>(), Ok(None));
    assert_eq!(seq.position(), 2);
}

#[test]
fn cautious_capacity_is_bounded() {
    assert_eq!(cautious_capacity(10), 10);
    assert_eq!(cautious_capacity(4096), 4096);
    assert_eq!(cautious_capacity(1_000_000), 4096);
}

#[test]
fn wrapper_decodes_one_element() {
    let w = DeserializeAsWrap::<u64, DisplayFromStr>::deserialize(&s("12")).unwrap();
    assert_eq!(w.into_inner(), 12);
    assert!(DeserializeAsWrap::<u64, DisplayFromStr>::deserialize(&s("x")).is_err());
}

#[test]
fn option_absent_inputs() {
    type R = Result<Option<u64>, DeError>;
    let r: R = <Option<Same> as DeserializeAs<Option<u64>>>::deserialize_as(&Content::Null);
    assert_eq!(r, Ok(None));
    let r: R = <Option<Same> as DeserializeAs<Option<u64>>>::deserialize_as(&Content::Unit);
    assert_eq!(r, Ok(None));
}

#[test]
fn option_present_inputs() {
    type R = Result<Option<u64>, DeError>;
    let r: R = <Option<Same> as DeserializeAs<Option<u64>>>::deserialize_as(&Content::Present(
        Box::new(u(5)),
    ));
    assert_eq!(r, Ok(Some(5)));
    let r: R = <Option<Same> as DeserializeAs<Option<u64>>>::deserialize_as(&Content::Present(
        Box::new(s("no")),
    ));
    assert_eq!(r, Err(DeError::InvalidType(Expected::U64)));
}

#[test]
fn option_bare_value_is_present() {
    type R = Result<Option<u64>, DeError>;
    let r: R = <Option<Same> as DeserializeAs<Option<u64>>>::deserialize_as(&u(9));
    assert_eq!(r, Ok(Some(9)));
    let r: R = <Option<Same> as DeserializeAs<Option<u64>>>::deserialize_as(&s("no"));
    assert_eq!(r, Err(DeError::InvalidType(Expected::U64)));
    let r: R = <Option<DisplayFromStr> as DeserializeAs<Option<u64>>>::deserialize_as(&s("abc"));
    assert_eq!(r, Err(DeError::Parse(ParseFailure::InvalidDigit)));
}

#[test]
fn option_probe_failure_is_absent() {
    assert_eq!(probe_option::<u64, Same>(&u(9)), Some(9));
    assert_eq!(probe_option::<u64, Same>(&s("no")), None);
    assert_eq!(probe_option::<u64, DisplayFromStr>(&s("abc")), None);
    assert_eq!(probe_option::<u64, DisplayFromStr>(&s("12")), Some(12));
}

#[test]
fn integers_accept_either_form_when_they_fit() {
    assert_eq!(<Same as DeserializeAs<i64>>::deserialize_as(&u(5)), Ok(5));
    assert_eq!(
        <Same as DeserializeAs<i64>>::deserialize_as(&u(u64::MAX)),
        Err(DeError::InvalidType(Expected::I64))
    );
    assert_eq!(<Same as DeserializeAs<u64>>::deserialize_as(&Content::I64(7)), Ok(7));
    assert_eq!(
        <Same as DeserializeAs<u64>>::deserialize_as(&Content::I64(-1)),
        Err(DeError::InvalidType(Expected::U64))
    );
}

#[test]
fn display_from_str_signed() {
    let p = |t: &str| <DisplayFromStr as DeserializeAs<i64>>::deserialize_as(&s(t));
    assert_eq!(p("-42"), Ok(-42));
    assert_eq!(p("+42"), Ok(42));
    assert_eq!(p("-9223372036854775808"), Ok(i64::MIN));
    assert_eq!(p("9223372036854775808"), Err(DeError::Parse(ParseFailure::Overflow)));
    assert_eq!(p("-9223372036854775809"), Err(DeError::Parse(ParseFailure::Underflow)));
    assert_eq!(p("-"), Err(DeError::Parse(ParseFailure::InvalidDigit)));
    assert_eq!(p(""), Err(DeError::Parse(ParseFailure::Empty)));
}

#[test]
fn empty_string_is_absent() {
    type R = Result<Option<String>, DeError>;
    let r: R = <NoneAsEmptyString as DeserializeAs<Option<String>>>::deserialize_as(&s(""));
    assert_eq!(r, Ok(None));
    let r: R = <NoneAsEmptyString as DeserializeAs<Option<String>>>::deserialize_as(&s("abc"));
    assert_eq!(r, Ok(Some("abc".to_string())));
    let r: R = <NoneAsEmptyString as DeserializeAs<Option<String>>>::deserialize_as(&s(" "));
    assert_eq!(r, Ok(Some(" ".to_string())));
    let r: R = <NoneAsEmptyString as DeserializeAs<Option<String>>>::deserialize_as(&s("Ünï"));
    assert_eq!(r, Ok(Some("Ünï".to_string())));
    let r: R = <NoneAsEmptyString as DeserializeAs<Option<String>>>::deserialize_as(&u(1));
    assert_eq!(r, Err(DeError::InvalidType(Expected::AnyString)));
}

#[test]
fn display_from_str_numbers() {
    let p = |t: &str| <DisplayFromStr as DeserializeAs<u64>>::deserialize_as(&s(t));
    assert_eq!(p("42"), Ok(42));
    assert_eq!(p("+7"), Ok(7));
    assert_eq!(p("007"), Ok(7));
    assert_eq!(p("18446744073709551615"), Ok(u64::MAX));
    assert_eq!(p(""), Err(DeError::Parse(ParseFailure::Empty)));
    assert_eq!(p("4x"), Err(DeError::Parse(ParseFailure::InvalidDigit)));
    assert_eq!(p("-1"), Err(DeError::Parse(ParseFailure::InvalidDigit)));
    assert_eq!(p(" 1"), Err(DeError::Parse(ParseFailure::InvalidDigit)));
    assert_eq!(p("18446744073709551616"), Err(DeError::Parse(ParseFailure::Overflow)));
    assert_eq!(
        <DisplayFromStr as DeserializeAs<u64>>::deserialize_as(&u(3)),
        Err(DeError::InvalidType(Expected::Str))
    );
}

#[test]
fn display_from_str_bools() {
    let p = |t: &str| <DisplayFromStr as DeserializeAs<bool>>::deserialize_as(&s(t));
    assert_eq!(p("true"), Ok(true));
    assert_eq!(p("false"), Ok(false));
    assert_eq!(p("True"), Err(DeError::Parse(ParseFailure::NotBool)));
    assert_eq!(p(""), Err(DeError::Parse(ParseFailure::NotBool)));
}

#[test]
fn tuple_decodes_each_slot_with_its_adapter() {
    let c = list(vec![s("5"), s("x"), Content::Bool(true)]);
    let r = <(DisplayFromStr, Same, Same) as DeserializeAs<(u64, String, bool)>>::deserialize_as(&c);
    assert_eq!(r, Ok((5, "x".to_string(), true)));
    let one = <(Same,) as DeserializeAs<(u64,)>>::deserialize_as(&list(vec![u(1)]));
    assert_eq!(one, Ok((1,)));
}

#[test]
fn tuple_too_short_names_first_missing_slot() {
    type R = Result<(u64, u64), DeError>;
    let r: R = <(Same, Same) as DeserializeAs<(u64, u64)>>::deserialize_as(&list(vec![u(1)]));
    assert_eq!(r, Err(DeError::InvalidLength(1, Expected::Tuple(2))));
    let r: R = <(Same, Same) as DeserializeAs<(u64, u64)>>::deserialize_as(&list(vec![]));
    assert_eq!(r, Err(DeError::InvalidLength(0, Expected::Tuple(2))));
    let r3 = <(Same, Same, Same) as DeserializeAs<(u64, u64, u64)>>::deserialize_as(&list(vec![
        u(1),
        u(2),
    ]));
    assert_eq!(r3, Err(DeError::InvalidLength(2, Expected::Tuple(3))));
}

#[test]
fn tuple_of_twelve_arity() {
    type T12 = (u64, u64, u64, u64, u64, u64, u64, u64, u64, u64, u64, u64);
    type A12 = (Same, Same, Same, Same, Same, Same, Same, Same, Same, Same, Same, Same);
    let full = list((0..12).map(u).collect());
    assert_eq!(
        <A12 as DeserializeAs<T12>>::deserialize_as(&full),
        Ok((0, 1, 2, 3, 4, 5, 6, 7, 8, 9, 10, 11))
    );
    let short = list((0..7).map(u).collect());
    assert_eq!(
        <A12 as DeserializeAs<T12>>::deserialize_as(&short),
        Err(DeError::InvalidLength(7, Expected::Tuple(12)))
    );
}

#[test]
fn tuple_too_long_and_wrong_kind() {
    type R = Result<(u64, u64), DeError>;
    let r: R = <(Same, Same) as DeserializeAs<(u64, u64)>>::deserialize_as(&list(vec![
        u(1),
        u(2),
        u(3),
    ]));
    assert_eq!(r, Err(DeError::InvalidLength(3, Expected::Tuple(2))));
    let r: R = <(Same, Same) as DeserializeAs<(u64, u64)>>::deserialize_as(&u(1));
    assert_eq!(r, Err(DeError::InvalidType(Expected::Tuple(2))));
    let r: R = <(Same, Same) as DeserializeAs<(u64, u64)>>::deserialize_as(&list(vec![
        s("a"),
        u(2),
    ]));
    assert_eq!(r, Err(DeError::InvalidType(Expected::U64)));
}

#[test]
fn arrays() {
    let c = list(vec![s("1"), s("2"), s("3")]);
    assert_eq!(
        <[DisplayFromStr; 3] as DeserializeAs<[u64; 3]>>::deserialize_as(&c),
        Ok([1, 2, 3])
    );
    assert_eq!(
        <[Same; 4] as DeserializeAs<[u64; 4]>>::deserialize_as(&list(vec![u(1), u(2)])),
        Err(DeError::InvalidLength(2, Expected::Array(4)))
    );
    let empty: Result<[u64; 0], DeError> =
        <[Same; 0] as DeserializeAs<[u64; 0]>>::deserialize_as(&u(5));
    assert_eq!(empty, Err(DeError::InvalidType(Expected::Array(0))));
    let full = list((0..32).map(u).collect());
    let r = <[Same; 32] as DeserializeAs<[u64; 32]>>::deserialize_as(&full).unwrap();
    assert_eq!(r[31], 31);
}

fn entries(pairs: Vec<(Content, Content)>) -> Content {
    Content::Entries(pairs)
}

#[test]
fn ordered_map_later_entry_wins() {
    let c = entries(vec![(u(1), s("a")), (u(2), s("b")), (u(1), s("c"))]);
    let m = <BTreeMap<Same, Same> as DeserializeAs<BTreeMap<u64, String>>>::deserialize_as(&c)
        .unwrap();
    assert_eq!(m.len(), 2);
    assert_eq!(m[&1], "c");
    assert_eq!(m[&2], "b");
}

#[test]
fn hash_map_later_entry_wins() {
    let c = entries(vec![(s("7"), u(1)), (s("7"), u(2))]);
    let m = <HashMap<DisplayFromStr, Same> as DeserializeAs<HashMap<u64, u64>>>::deserialize_as(&c)
        .unwrap();
    assert_eq!(m.len(), 1);
    assert_eq!(m[&7], 2);
}

#[test]
fn map_errors() {
    let bad_key = entries(vec![(u(1), u(1)), (s("k"), u(2))]);
    assert_eq!(
        <BTreeMap<Same, Same> as DeserializeAs<BTreeMap<u64, u64>>>::deserialize_as(&bad_key),
        Err(DeError::InvalidType(Expected::U64))
    );
    let bad_value = entries(vec![(u(1), s("v"))]);
    assert_eq!(
        <HashMap<Same, Same> as DeserializeAs<HashMap<u64, u64>>>::deserialize_as(&bad_value),
        Err(DeError::InvalidType(Expected::U64))
    );
    assert_eq!(
        <BTreeMap<Same, Same> as DeserializeAs<BTreeMap<u64, u64>>>::deserialize_as(&list(vec![])),
        Err(DeError::InvalidType(Expected::Mapping))
    );
}

#[test]
fn pairs_to_map_later_pair_wins() {
    let c = list(vec![
        list(vec![u(1), u(10)]),
        list(vec![u(2), u(20)]),
        list(vec![u(1), u(11)]),
    ]);
    let m = <Vec<(Same, Same)> as DeserializeAs<BTreeMap<u64, u64>>>::deserialize_as(&c).unwrap();
    assert_eq!(m.len(), 2);
    assert_eq!(m[&1], 11);
    assert_eq!(m[&2], 20);
    let short = list(vec![list(vec![u(1)])]);
    assert_eq!(
        <Vec<(Same, Same)> as DeserializeAs<BTreeMap<u64, u64>>>::deserialize_as(&short),
        Err(DeError::InvalidLength(1, Expected::Tuple(2)))
    );
}

#[test]
fn nested_compositions() {
    let c = list(vec![Content::Null, Content::Present(Box::new(list(vec![s("3")])))]);
    let r = <Vec<Option<Vec<DisplayFromStr>>> as DeserializeAs<Vec<Option<Vec<u64>>>>>::deserialize_as(&c);
    assert_eq!(r, Ok(vec![None, Some(vec![3])]));
}

#[test]
fn hash_map_with_chosen_hasher() {
    type H = std::hash::BuildHasherDefault<std::collections::hash_map::DefaultHasher>;
    let c = entries(vec![(u(1), s("a")), (u(1), s("b")), (u(2), s(""))]);
    let m = <HashMap<Same, NoneAsEmptyString, H> as DeserializeAs<
        HashMap<u64, Option<String>, H>,
    >>::deserialize_as(&c)
    .unwrap();
    assert_eq!(m.len(), 2);
    assert_eq!(m[&1], Some("b".to_string()));
    assert_eq!(m[&2], None);
}

#[test]
fn array_of_zero_needs_a_sequence() {
    let r: Result<[u64; 0], DeError> =
        <[Same; 0] as DeserializeAs<[u64; 0]>>::deserialize_as(&list(vec![u(1)]));
    assert_eq!(r, Ok([]));
    let r: Result<[u64; 2], DeError> =
        <[Same; 2] as DeserializeAs<[u64; 2]>>::deserialize_as(&list(vec![u(1), u(2), u(3)]));
    assert_eq!(r, Err(DeError::InvalidLength(3, Expected::Array(2))));
    let r: Result<[u64; 2], DeError> =
        <[Same; 2] as DeserializeAs<[u64; 2]>>::deserialize_as(&u(1));
    assert_eq!(r, Err(DeError::InvalidType(Expected::Array(2))));
}
