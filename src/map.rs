use vstd::prelude::*;
use vstd::laws_cmp::obeys_cmp;
use vstd::std_specs::btree::{lemma_btree_map_deepview_dom, lemma_btree_map_deepview_properties};
use vstd::std_specs::hash::{builds_valid_hashers, hash_map_deep_view_impl, obeys_key_model};
use std::collections::{BTreeMap, HashMap};
use std::hash::BuildHasher;
use crate::content::{Content, DeError, Expected};
use crate::de::{cautious_capacity, result_view, DeserializeAs, DeserializeAsWrap};

verus! {

/// Distinct keys have distinct views.
pub open spec fn key_view_injective<K: DeepView>() -> bool {
    forall|a: K, b: K| #[trigger] a.deep_view() == #[trigger] b.deep_view() ==> a == b
}

/// What a map built so far becomes after one more decoded entry: the entry
/// replaces any earlier value of its key; an error stops the build.
pub open spec fn spec_add_entry<KV, VV>(
    acc: Result<Map<KV, VV>, DeError>,
    entry: Result<(KV, VV), DeError>,
) -> Result<Map<KV, VV>, DeError> {
    match acc {
        Err(e) => Err(e),
        Ok(m) => match entry {
            Err(e) => Err(e),
            Ok(kv) => Ok(m.insert(kv.0, kv.1)),
        },
    }
}

/// One map entry: its key decoded with `KU`, then its value with `VU`.
pub open spec fn spec_entry<K: DeepView, V: DeepView, KU: DeserializeAs<K>, VU: DeserializeAs<V>>(
    entry: (Content, Content),
) -> Result<(K::V, V::V), DeError> {
    match KU::spec_deserialize_as(entry.0) {
        Err(e) => Err(e),
        Ok(k) => match VU::spec_deserialize_as(entry.1) {
            Err(e) => Err(e),
            Ok(v) => Ok((k, v)),
        },
    }
}

/// Decodes one map entry: its key with `KU`, then its value with `VU`.
pub fn decode_entry<K: DeepView, V: DeepView, KU: DeserializeAs<K>, VU: DeserializeAs<V>>(
    entry: &(Content, Content),
) -> (r: Result<(K, V), DeError>)
    requires
        KU::lawful(),
        VU::lawful(),
    ensures
        result_view(r) == spec_entry::<K, V, KU, VU>(*entry),
{
    let k = match DeserializeAsWrap::<K, KU>::deserialize(&entry.0) {
        Ok(w) => w.into_inner(),
        Err(e) => return Err(e),
    };
    match DeserializeAsWrap::<V, VU>::deserialize(&entry.1) {
        Ok(w) => Ok((k, w.into_inner())),
        Err(e) => Err(e),
    }
}

/// The map that the entries of a map input build, in document order.
pub open spec fn spec_entries_as<
    K: DeepView,
    V: DeepView,
    KU: DeserializeAs<K>,
    VU: DeserializeAs<V>,
>(entries: Seq<(Content, Content)>) -> Result<Map<K::V, V::V>, DeError>
    decreases entries.len(),
{
    if entries.len() == 0 {
        Ok(Map::empty())
    } else {
        spec_add_entry(
            spec_entries_as::<K, V, KU, VU>(entries.drop_last()),
            spec_entry::<K, V, KU, VU>(entries.last()),
        )
    }
}

/// The map that a sequence of key/value pairs builds, in document order.
pub open spec fn spec_pairs_as<K: DeepView, V: DeepView, KU: DeserializeAs<K>, VU: DeserializeAs<V>>(
    items: Seq<Content>,
) -> Result<Map<K::V, V::V>, DeError>
    decreases items.len(),
{
    if items.len() == 0 {
        Ok(Map::empty())
    } else {
        spec_add_entry(
            spec_pairs_as::<K, V, KU, VU>(items.drop_last()),
            <(KU, VU) as DeserializeAs<(K, V)>>::spec_deserialize_as(items.last()),
        )
    }
}

/// When a map input builds a map, and entry `j` decodes to key `k` and
/// value `v` while no later entry decodes to key `k`, the map holds exactly
/// `v` at `k`: of entries with equal keys the last one wins.
pub proof fn lemma_map_last_entry_wins<
    K: DeepView,
    V: DeepView,
    KU: DeserializeAs<K>,
    VU: DeserializeAs<V>,
>(entries: Seq<(Content, Content)>, j: int)
    requires
        0 <= j < entries.len(),
        spec_entries_as::<K, V, KU, VU>(entries) is Ok,
        spec_entry::<K, V, KU, VU>(entries[j]) is Ok,
        forall|i: int|
            j < i < entries.len() ==> (#[trigger] spec_entry::<K, V, KU, VU>(entries[i]))->Ok_0.0
                != spec_entry::<K, V, KU, VU>(entries[j])->Ok_0.0,
    ensures
        spec_entries_as::<K, V, KU, VU>(entries)->Ok_0.contains_key(
            spec_entry::<K, V, KU, VU>(entries[j])->Ok_0.0,
        ),
        spec_entries_as::<K, V, KU, VU>(entries)->Ok_0[spec_entry::<K, V, KU, VU>(
            entries[j],
        )->Ok_0.0] == spec_entry::<K, V, KU, VU>(entries[j])->Ok_0.1,
    decreases entries.len(),
{
    let init = entries.drop_last();
    if j < entries.len() - 1 {
        assert(init[j] == entries[j]);
        assert forall|i: int| j < i < init.len() implies (#[trigger] spec_entry::<K, V, KU, VU>(
            init[i],
        ))->Ok_0.0 != spec_entry::<K, V, KU, VU>(init[j])->Ok_0.0 by {
            assert(init[i] == entries[i]);
        }
        lemma_map_last_entry_wins::<K, V, KU, VU>(init, j);
        assert(spec_entry::<K, V, KU, VU>(entries[entries.len() - 1])->Ok_0.0
            != spec_entry::<K, V, KU, VU>(entries[j])->Ok_0.0);
    }
}

/// When a sequence of pairs builds a map, and pair `j` decodes to key `k`
/// and value `v` while no later pair decodes to key `k`, the map holds
/// exactly `v` at `k`: of pairs with equal keys the last one wins.
pub proof fn lemma_pairs_last_entry_wins<
    K: DeepView,
    V: DeepView,
    KU: DeserializeAs<K>,
    VU: DeserializeAs<V>,
>(items: Seq<Content>, j: int)
    requires
        0 <= j < items.len(),
        spec_pairs_as::<K, V, KU, VU>(items) is Ok,
        <(KU, VU) as DeserializeAs<(K, V)>>::spec_deserialize_as(items[j]) is Ok,
        forall|i: int|
            j < i < items.len() ==> (#[trigger] <(KU, VU) as DeserializeAs<
                (K, V),
            >>::spec_deserialize_as(items[i]))->Ok_0.0 != <(KU, VU) as DeserializeAs<
                (K, V),
            >>::spec_deserialize_as(items[j])->Ok_0.0,
    ensures
        spec_pairs_as::<K, V, KU, VU>(items)->Ok_0.contains_key(
            <(KU, VU) as DeserializeAs<(K, V)>>::spec_deserialize_as(items[j])->Ok_0.0,
        ),
        spec_pairs_as::<K, V, KU, VU>(items)->Ok_0[<(KU, VU) as DeserializeAs<
            (K, V),
        >>::spec_deserialize_as(items[j])->Ok_0.0] == <(KU, VU) as DeserializeAs<
            (K, V),
        >>::spec_deserialize_as(items[j])->Ok_0.1,
    decreases items.len(),
{
    let init = items.drop_last();
    if j < items.len() - 1 {
        assert(init[j] == items[j]);
        assert forall|i: int| j < i < init.len() implies (#[trigger] <(KU, VU) as DeserializeAs<
            (K, V),
        >>::spec_deserialize_as(init[i]))->Ok_0.0 != <(KU, VU) as DeserializeAs<
            (K, V),
        >>::spec_deserialize_as(init[j])->Ok_0.0 by {
            assert(init[i] == items[i]);
        }
        lemma_pairs_last_entry_wins::<K, V, KU, VU>(init, j);
        assert(<(KU, VU) as DeserializeAs<(K, V)>>::spec_deserialize_as(items[items.len() - 1])->Ok_0.0
            != <(KU, VU) as DeserializeAs<(K, V)>>::spec_deserialize_as(items[j])->Ok_0.0);
    }
}

proof fn lemma_entries_error_persists<
    K: DeepView,
    V: DeepView,
    KU: DeserializeAs<K>,
    VU: DeserializeAs<V>,
>(s: Seq<(Content, Content)>, j: int, n: int, e: DeError)
    requires
        0 <= j <= n <= s.len(),
        spec_entries_as::<K, V, KU, VU>(s.take(j)) == Err::<Map<K::V, V::V>, DeError>(e),
    ensures
        spec_entries_as::<K, V, KU, VU>(s.take(n)) == Err::<Map<K::V, V::V>, DeError>(e),
    decreases n - j,
{
    if n > j {
        lemma_entries_error_persists::<K, V, KU, VU>(s, j, n - 1, e);
        assert(s.take(n).drop_last() =~= s.take(n - 1));
    }
}

proof fn lemma_pairs_error_persists<
    K: DeepView,
    V: DeepView,
    KU: DeserializeAs<K>,
    VU: DeserializeAs<V>,
>(s: Seq<Content>, j: int, n: int, e: DeError)
    requires
        0 <= j <= n <= s.len(),
        spec_pairs_as::<K, V, KU, VU>(s.take(j)) == Err::<Map<K::V, V::V>, DeError>(e),
    ensures
        spec_pairs_as::<K, V, KU, VU>(s.take(n)) == Err::<Map<K::V, V::V>, DeError>(e),
    decreases n - j,
{
    if n > j {
        lemma_pairs_error_persists::<K, V, KU, VU>(s, j, n - 1, e);
        assert(s.take(n).drop_last() =~= s.take(n - 1));
    }
}

/// Inserting into a map moves its deep view by the same insertion.
proof fn lemma_insert_deep_view<K: DeepView + Ord, V: DeepView>(
    before: BTreeMap<K, V>,
    after: BTreeMap<K, V>,
    k: K,
    v: V,
)
    requires
        key_view_injective::<K>(),
        after@ == before@.insert(k, v),
    ensures
        after.deep_view() == before.deep_view().insert(k.deep_view(), v.deep_view()),
{
    assert(vstd::relations::injective(|x: K| x.deep_view()));
    lemma_btree_map_deepview_dom(before);
    lemma_btree_map_deepview_dom(after);
    lemma_btree_map_deepview_properties(before);
    lemma_btree_map_deepview_properties(after);
    let lhs = after.deep_view();
    let rhs = before.deep_view().insert(k.deep_view(), v.deep_view());
    assert forall|dk: K::V| lhs.contains_key(dk) <==> rhs.contains_key(dk) by {
        if lhs.contains_key(dk) {
            let kk = choose|kk: K| kk.deep_view() == dk && #[trigger] after@.contains_key(kk);
            if kk != k {
                assert(before@.contains_key(kk));
                assert(before.deep_view().contains_key(kk.deep_view()));
            }
        }
        if rhs.contains_key(dk) && dk == k.deep_view() {
            assert(after@.contains_key(k));
            assert(lhs.contains_key(k.deep_view()));
        }
        if rhs.contains_key(dk) && dk != k.deep_view() {
            let kk = choose|kk: K| kk.deep_view() == dk && #[trigger] before@.contains_key(kk);
            assert(after@.contains_key(kk));
            assert(lhs.contains_key(kk.deep_view()));
        }
    }
    assert forall|dk: K::V| #[trigger] lhs.contains_key(dk) implies lhs[dk] == rhs[dk] by {
        let kk = choose|kk: K| kk.deep_view() == dk && #[trigger] after@.contains_key(kk);
        if kk != k {
            assert(before@.contains_key(kk));
            assert(kk.deep_view() != k.deep_view());
        }
    }
    assert(lhs =~= rhs);
}

proof fn lemma_empty_deep_view<K: DeepView + Ord, V: DeepView>(m: BTreeMap<K, V>)
    requires
        m@ == Map::<K, V>::empty(),
    ensures
        m.deep_view() == Map::<K::V, V::V>::empty(),
{
    lemma_btree_map_deepview_dom(m);
    assert(m.deep_view().dom() =~= Set::<K::V>::empty());
    assert(m.deep_view() =~= Map::<K::V, V::V>::empty());
}

/// Builds an ordered map from the entries of a map input, key with `KU` and
/// value with `VU`; a later entry replaces an earlier one with the same key.
pub fn visit_map_as<K: DeepView + Ord, V: DeepView, KU: DeserializeAs<K>, VU: DeserializeAs<V>>(
    entries: &Vec<(Content, Content)>,
) -> (r: Result<BTreeMap<K, V>, DeError>)
    requires
        obeys_cmp::<K>(),
        key_view_injective::<K>(),
        KU::lawful(),
        VU::lawful(),
    ensures
        result_view(r) == spec_entries_as::<K, V, KU, VU>(entries@),
{
    let mut values: BTreeMap<K, V> = BTreeMap::new();
    proof {
        lemma_empty_deep_view(values);
        assert(entries@.take(0) =~= Seq::<(Content, Content)>::empty());
    }
    let mut i: usize = 0;
    while i < entries.len()
        invariant
            obeys_cmp::<K>(),
            key_view_injective::<K>(),
            KU::lawful(),
            VU::lawful(),
            i <= entries@.len(),
            spec_entries_as::<K, V, KU, VU>(entries@.take(i as int)) == Ok::<
                Map<K::V, V::V>,
                DeError,
            >(values.deep_view()),
        decreases entries@.len() - i,
    {
        proof {
            assert(entries@.take(i + 1).drop_last() =~= entries@.take(i as int));
            assert(entries@.take(i + 1).last() == entries@[i as int]);
        }
        let (k, v) = match decode_entry::<K, V, KU, VU>(&entries[i]) {
            Ok(kv) => kv,
            Err(e) => {
                proof {
                    lemma_entries_error_persists::<K, V, KU, VU>(
                        entries@,
                        i + 1,
                        entries@.len() as int,
                        e,
                    );
                    assert(entries@.take(entries@.len() as int) =~= entries@);
                }
                return Err(e);
            },
        };
        let ghost before = values;
        let ghost gk = k;
        let ghost gv = v;
        values.insert(k, v);
        proof {
            lemma_insert_deep_view(before, values, gk, gv);
        }
        i = i + 1;
    }
    proof {
        assert(entries@.take(entries@.len() as int) =~= entries@);
    }
    Ok(values)
}

/// Builds an ordered map from a sequence of key/value pairs; a later pair
/// replaces an earlier one with the same key.
pub fn visit_pairs_as<K: DeepView + Ord, V: DeepView, KU: DeserializeAs<K>, VU: DeserializeAs<V>>(
    items: &Vec<Content>,
) -> (r: Result<BTreeMap<K, V>, DeError>)
    requires
        obeys_cmp::<K>(),
        key_view_injective::<K>(),
        KU::lawful(),
        VU::lawful(),
    ensures
        result_view(r) == spec_pairs_as::<K, V, KU, VU>(items@),
{
    let mut values: BTreeMap<K, V> = BTreeMap::new();
    proof {
        lemma_empty_deep_view(values);
        assert(items@.take(0) =~= Seq::<Content>::empty());
    }
    let mut i: usize = 0;
    while i < items.len()
        invariant
            obeys_cmp::<K>(),
            key_view_injective::<K>(),
            KU::lawful(),
            VU::lawful(),
            i <= items@.len(),
            spec_pairs_as::<K, V, KU, VU>(items@.take(i as int)) == Ok::<
                Map<K::V, V::V>,
                DeError,
            >(values.deep_view()),
        decreases items@.len() - i,
    {
        proof {
            assert(items@.take(i + 1).drop_last() =~= items@.take(i as int));
            assert(items@.take(i + 1).last() == items@[i as int]);
        }
        let (k, v) = match DeserializeAsWrap::<(K, V), (KU, VU)>::deserialize(&items[i]) {
            Ok(w) => w.into_inner(),
            Err(e) => {
                proof {
                    lemma_pairs_error_persists::<K, V, KU, VU>(
                        items@,
                        i + 1,
                        items@.len() as int,
                        e,
                    );
                    assert(items@.take(items@.len() as int) =~= items@);
                }
                return Err(e);
            },
        };
        let ghost before = values;
        let ghost gk = k;
        let ghost gv = v;
        values.insert(k, v);
        proof {
            lemma_insert_deep_view(before, values, gk, gv);
        }
        i = i + 1;
    }
    proof {
        assert(items@.take(items@.len() as int) =~= items@);
    }
    Ok(values)
}

impl<
    K: DeepView + Ord,
    V: DeepView,
    KU: DeserializeAs<K>,
    VU: DeserializeAs<V>,
> DeserializeAs<BTreeMap<K, V>> for BTreeMap<KU, VU> {
    open spec fn spec_deserialize_as(c: Content) -> Result<Map<K::V, V::V>, DeError> {
        match c {
            Content::Entries(entries) => spec_entries_as::<K, V, KU, VU>(entries@),
            _ => Err(DeError::InvalidType(Expected::Mapping)),
        }
    }

    open spec fn lawful() -> bool {
        obeys_cmp::<K>() && key_view_injective::<K>() && KU::lawful() && VU::lawful()
    }

    fn deserialize_as(c: &Content) -> (r: Result<BTreeMap<K, V>, DeError>) {
        match c {
            Content::Entries(entries) => visit_map_as::<K, V, KU, VU>(entries),
            _ => Err(DeError::InvalidType(Expected::Mapping)),
        }
    }
}

impl<
    K: DeepView + Ord,
    V: DeepView,
    KU: DeserializeAs<K>,
    VU: DeserializeAs<V>,
> DeserializeAs<BTreeMap<K, V>> for Vec<(KU, VU)> {
    open spec fn spec_deserialize_as(c: Content) -> Result<Map<K::V, V::V>, DeError> {
        match c {
            Content::List(items) => spec_pairs_as::<K, V, KU, VU>(items@),
            _ => Err(DeError::InvalidType(Expected::Sequence)),
        }
    }

    open spec fn lawful() -> bool {
        obeys_cmp::<K>() && key_view_injective::<K>() && KU::lawful() && VU::lawful()
    }

    fn deserialize_as(c: &Content) -> (r: Result<BTreeMap<K, V>, DeError>) {
        match c {
            Content::List(items) => visit_pairs_as::<K, V, KU, VU>(items),
            _ => Err(DeError::InvalidType(Expected::Sequence)),
        }
    }
}

/// How the deep view of a hash map follows its view, for any hasher.
proof fn lemma_hash_map_deep_view<K: DeepView, V: DeepView, S>(m: HashMap<K, V, S>)
    requires
        key_view_injective::<K>(),
    ensures
        forall|k: K| #[trigger]
            m@.contains_key(k) ==> m.deep_view().contains_key(k.deep_view())
                && m.deep_view()[k.deep_view()] == m@[k].deep_view(),
        forall|dk: K::V| #[trigger]
            m.deep_view().contains_key(dk) ==> exists|k: K|
                k.deep_view() == dk && #[trigger] m@.contains_key(k),
{
    reveal(hash_map_deep_view_impl);
    assert forall|k: K| #[trigger] m@.contains_key(k) implies m.deep_view().contains_key(
        k.deep_view(),
    ) && m.deep_view()[k.deep_view()] == m@[k].deep_view() by {
        let dk = k.deep_view();
        assert(m.deep_view().contains_key(dk));
        let k2 = choose|k2: K| m@.contains_key(k2) && #[trigger] k2.deep_view() == dk;
        assert(k2 == k);
    }
}

proof fn lemma_hash_insert_deep_view<K: DeepView, V: DeepView, S>(
    before: HashMap<K, V, S>,
    after: HashMap<K, V, S>,
    k: K,
    v: V,
)
    requires
        key_view_injective::<K>(),
        after@ == before@.insert(k, v),
    ensures
        after.deep_view() == before.deep_view().insert(k.deep_view(), v.deep_view()),
{
    lemma_hash_map_deep_view(before);
    lemma_hash_map_deep_view(after);
    let lhs = after.deep_view();
    let rhs = before.deep_view().insert(k.deep_view(), v.deep_view());
    assert forall|dk: K::V| lhs.contains_key(dk) <==> rhs.contains_key(dk) by {
        if lhs.contains_key(dk) {
            let kk = choose|kk: K| kk.deep_view() == dk && #[trigger] after@.contains_key(kk);
            if kk != k {
                assert(before@.contains_key(kk));
                assert(before.deep_view().contains_key(kk.deep_view()));
            }
        }
        if rhs.contains_key(dk) && dk == k.deep_view() {
            assert(after@.contains_key(k));
            assert(lhs.contains_key(k.deep_view()));
        }
        if rhs.contains_key(dk) && dk != k.deep_view() {
            let kk = choose|kk: K| kk.deep_view() == dk && #[trigger] before@.contains_key(kk);
            assert(after@.contains_key(kk));
            assert(lhs.contains_key(kk.deep_view()));
        }
    }
    assert forall|dk: K::V| #[trigger] lhs.contains_key(dk) implies lhs[dk] == rhs[dk] by {
        let kk = choose|kk: K| kk.deep_view() == dk && #[trigger] after@.contains_key(kk);
        if kk != k {
            assert(before@.contains_key(kk));
            assert(kk.deep_view() != k.deep_view());
        }
    }
    assert(lhs =~= rhs);
}

/// Relies on `HashMap::with_capacity_and_hasher`: the new map is empty.
#[verifier::external_body]
fn empty_hash_map<K, V, S>(capacity: usize, hasher: S) -> (r: HashMap<K, V, S>)
    ensures
        r@.dom().is_empty(),
{
    HashMap::with_capacity_and_hasher(capacity, hasher)
}

/// Builds a hash map from the entries of a map input, key with `KU` and
/// value with `VU`; a later entry replaces an earlier one with the same key.
/// Room is reserved from the entry count, bounded by `MAX_PREALLOCATION`.
pub fn visit_hash_map_as<
    K: DeepView + Eq + std::hash::Hash,
    V: DeepView,
    S: BuildHasher + Default,
    KU: DeserializeAs<K>,
    VU: DeserializeAs<V>,
>(entries: &Vec<(Content, Content)>) -> (r: Result<HashMap<K, V, S>, DeError>)
    requires
        obeys_key_model::<K>(),
        builds_valid_hashers::<S>(),
        key_view_injective::<K>(),
        KU::lawful(),
        VU::lawful(),
    ensures
        result_view(r) == spec_entries_as::<K, V, KU, VU>(entries@),
{
    let mut values: HashMap<K, V, S> = empty_hash_map(cautious_capacity(entries.len()), S::default());
    proof {
        lemma_hash_map_deep_view(values);
        assert(values@.dom() =~= Set::<K>::empty());
        assert(values.deep_view().dom() =~= Set::<K::V>::empty());
        assert(values.deep_view() =~= Map::<K::V, V::V>::empty());
        assert(entries@.take(0) =~= Seq::<(Content, Content)>::empty());
    }
    let mut i: usize = 0;
    while i < entries.len()
        invariant
            obeys_key_model::<K>(),
            builds_valid_hashers::<S>(),
            key_view_injective::<K>(),
            KU::lawful(),
            VU::lawful(),
            i <= entries@.len(),
            spec_entries_as::<K, V, KU, VU>(entries@.take(i as int)) == Ok::<
                Map<K::V, V::V>,
                DeError,
            >(values.deep_view()),
        decreases entries@.len() - i,
    {
        proof {
            assert(entries@.take(i + 1).drop_last() =~= entries@.take(i as int));
            assert(entries@.take(i + 1).last() == entries@[i as int]);
        }
        let (k, v) = match decode_entry::<K, V, KU, VU>(&entries[i]) {
            Ok(kv) => kv,
            Err(e) => {
                proof {
                    lemma_entries_error_persists::<K, V, KU, VU>(
                        entries@,
                        i + 1,
                        entries@.len() as int,
                        e,
                    );
                    assert(entries@.take(entries@.len() as int) =~= entries@);
                }
                return Err(e);
            },
        };
        let ghost before = values;
        let ghost gk = k;
        let ghost gv = v;
        values.insert(k, v);
        proof {
            lemma_hash_insert_deep_view(before, values, gk, gv);
        }
        i = i + 1;
    }
    proof {
        assert(entries@.take(entries@.len() as int) =~= entries@);
    }
    Ok(values)
}

impl<
    K: DeepView + Eq + std::hash::Hash,
    V: DeepView,
    S: BuildHasher + Default,
    KU: DeserializeAs<K>,
    VU: DeserializeAs<V>,
> DeserializeAs<HashMap<K, V, S>> for HashMap<KU, VU, S> {
    open spec fn spec_deserialize_as(c: Content) -> Result<Map<K::V, V::V>, DeError> {
        match c {
            Content::Entries(entries) => spec_entries_as::<K, V, KU, VU>(entries@),
            _ => Err(DeError::InvalidType(Expected::Mapping)),
        }
    }

    open spec fn lawful() -> bool {
        obeys_key_model::<K>() && builds_valid_hashers::<S>() && key_view_injective::<K>()
            && KU::lawful() && VU::lawful()
    }

    fn deserialize_as(c: &Content) -> (r: Result<HashMap<K, V, S>, DeError>) {
        match c {
            Content::Entries(entries) => visit_hash_map_as::<K, V, S, KU, VU>(entries),
            _ => Err(DeError::InvalidType(Expected::Mapping)),
        }
    }
}

} // verus!
