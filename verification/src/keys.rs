//! The storage key of a pair: its assets' bytes in ascending order, then its
//! pair type, with the byte 1 between consecutive parts.
use vstd::prelude::*;
use vstd::relations::*;
use vstd::seq_lib::*;
use crate::bytes::{lex_lt, lex_le, compare_bytes, KeyOrder, lemma_lex_le_total_ordering,
    lemma_lex_lt_asymmetric, lemma_lex_lt_transitive};
use crate::asset::{AssetInfo, PairType, asset_bytes, pair_type_text, utf8, string_bytes};

verus! {

broadcast use vstd::seq_lib::group_to_multiset_ensures;

/// The byte that separates the parts of a pair key.
pub open spec fn delimiter() -> u8 {
    1u8
}

/// The order in which the parts of a key are sorted.
pub open spec fn key_le() -> spec_fn(Seq<u8>, Seq<u8>) -> bool {
    |a: Seq<u8>, b: Seq<u8>| lex_le(a, b)
}

/// The bytes of each asset, in the given order.
pub open spec fn asset_keys(assets: Seq<AssetInfo>) -> Seq<Seq<u8>> {
    assets.map_values(|a: AssetInfo| asset_bytes(a))
}

/// The bytes of each asset, in ascending order.
pub open spec fn sorted_asset_keys(assets: Seq<AssetInfo>) -> Seq<Seq<u8>> {
    asset_keys(assets).sort_by(key_le())
}

/// `parts` joined with the delimiter byte between consecutive parts.
pub open spec fn join_bytes(parts: Seq<Seq<u8>>) -> Seq<u8>
    decreases parts.len(),
{
    if parts.len() == 0 {
        Seq::empty()
    } else if parts.len() == 1 {
        parts[0]
    } else {
        join_bytes(parts.drop_last()) + seq![delimiter()] + parts.last()
    }
}

/// The key under which the pair of `assets` and `pair_type` is stored.
pub open spec fn pair_key_spec(assets: Seq<AssetInfo>, pair_type: PairType) -> Seq<u8> {
    join_bytes(sorted_asset_keys(assets)) + seq![delimiter()] + utf8(pair_type_text(pair_type))
}

/// The key just after which a listing that starts after the given pair begins.
pub open spec fn range_start_spec(assets: Seq<AssetInfo>, pair_type: PairType) -> Seq<u8> {
    pair_key_spec(assets, pair_type).push(1u8)
}

/// The first position of `out` whose key is above `x`.
fn insertion_point(out: &Vec<Vec<u8>>, x: &Vec<u8>) -> (p: usize)
    ensures
        p <= out@.len(),
        forall|k: int| 0 <= k < p ==> lex_le(#[trigger] out@[k]@, x@),
        p < out@.len() ==> lex_lt(x@, out@[p as int]@),
{
    let mut p: usize = 0;
    while p < out.len()
        invariant
            p <= out@.len(),
            forall|k: int| 0 <= k < p ==> lex_le(#[trigger] out@[k]@, x@),
        decreases out.len() - p,
    {
        match compare_bytes(out[p].as_slice(), x.as_slice()) {
            KeyOrder::After => {
                return p;
            },
            _ => {
                p = p + 1;
            },
        }
    }
    p
}

/// Inserting `x` where everything before is not above it and everything after is
/// above it keeps a sorted sequence sorted.
proof fn lemma_insert_sorted(s: Seq<Seq<u8>>, p: int, x: Seq<u8>)
    requires
        0 <= p <= s.len(),
        sorted_by(s, key_le()),
        forall|k: int| 0 <= k < p ==> lex_le(#[trigger] s[k], x),
        p < s.len() ==> lex_lt(x, s[p]),
    ensures
        sorted_by(s.insert(p, x), key_le()),
{
    let t = s.insert(p, x);
    assert forall|a: int, b: int| 0 <= a < b < t.len() implies #[trigger] key_le()(t[a], t[b]) by {
        if b < p {
            assert(key_le()(s[a], s[b]));
        } else if b == p {
            assert(lex_le(s[a], x));
        } else if a < p {
            assert(lex_le(s[a], x));
            assert(key_le()(s[p], s[b - 1]));
            if x != s[a] {
                if s[p] == s[b - 1] {
                    lemma_lex_lt_transitive(s[a], x, s[p]);
                } else {
                    lemma_lex_lt_transitive(s[a], x, s[p]);
                    lemma_lex_lt_transitive(s[a], s[p], s[b - 1]);
                }
            } else {
                if s[p] != s[b - 1] {
                    lemma_lex_lt_transitive(x, s[p], s[b - 1]);
                }
            }
        } else if a == p {
            assert(key_le()(s[p], s[b - 1]));
            if s[p] != s[b - 1] {
                lemma_lex_lt_transitive(x, s[p], s[b - 1]);
            }
        } else {
            assert(key_le()(s[a - 1], s[b - 1]));
        }
    }
}

/// Sorts byte strings into ascending order.
pub fn sort_keys(v: &Vec<Vec<u8>>) -> (r: Vec<Vec<u8>>)
    ensures
        r@.map_values(|x: Vec<u8>| x@) == v@.map_values(|x: Vec<u8>| x@).sort_by(key_le()),
{
    let ghost input = v@.map_values(|x: Vec<u8>| x@);
    let mut out: Vec<Vec<u8>> = Vec::new();
    let ghost orig = v@;
    let mut i: usize = 0;
    let n = v.len();
    proof {
        lemma_lex_le_total_ordering();
        assert(out@.map_values(|x: Vec<u8>| x@) =~= input.take(0));
    }
    while i < n
        invariant
            n == orig.len(),
            i <= n,
            v@ == orig,
            input == orig.map_values(|x: Vec<u8>| x@),
            total_ordering(key_le()),
            sorted_by(out@.map_values(|x: Vec<u8>| x@), key_le()),
            out@.map_values(|x: Vec<u8>| x@).to_multiset() == input.take(i as int).to_multiset(),
        decreases n - i,
    {
        let x = vstd::slice::slice_to_vec(v[i].as_slice());
        let ghost xs = x@;
        assert(xs == input[i as int]);
        let p = insertion_point(&out, &x);
        let ghost before = out@.map_values(|y: Vec<u8>| y@);
        out.insert(p, x);
        proof {
            let after = out@.map_values(|y: Vec<u8>| y@);
            assert(after =~= before.insert(p as int, xs));
            assert forall|k: int| 0 <= k < p implies lex_le(#[trigger] before[k], xs) by {
                assert(before[k] == out@[k]@);
            }
            lemma_insert_sorted(before, p as int, xs);
            assert(input.take(i + 1) =~= input.take(i as int).push(xs));
            assert(before.insert(p as int, xs).to_multiset() == before.to_multiset().insert(xs));
        }
        i = i + 1;
    }
    proof {
        assert(input.take(n as int) =~= input);
        let r = out@.map_values(|x: Vec<u8>| x@);
        input.lemma_sort_by_ensures(key_le());
        lemma_sorted_unique(r, input.sort_by(key_le()), key_le());
    }
    out
}

/// Appends the bytes `b` to `v`.
pub fn extend_bytes(v: &mut Vec<u8>, b: &[u8])
    ensures
        final(v)@ == old(v)@ + b@,
{
    let mut c = vstd::slice::slice_to_vec(b);
    v.append(&mut c);
}

/// The key under which the pair of `asset_infos` and `pair_type` is stored:
/// the assets' bytes sorted in ascending order, then the pair type's text,
/// with the byte 1 between consecutive parts.
pub fn pair_key(asset_infos: &Vec<AssetInfo>, pair_type: &PairType) -> (k: Vec<u8>)
    ensures
        k@ == pair_key_spec(asset_infos@, *pair_type),
{
    let mut parts: Vec<Vec<u8>> = Vec::new();
    let mut i: usize = 0;
    while i < asset_infos.len()
        invariant
            i <= asset_infos@.len(),
            parts@.len() == i,
            forall|k: int| 0 <= k < i ==> #[trigger] parts@[k]@ == asset_bytes(asset_infos@[k]),
        decreases asset_infos.len() - i,
    {
        parts.push(asset_infos[i].as_bytes());
        i = i + 1;
    }
    assert(parts@.map_values(|x: Vec<u8>| x@) =~= asset_keys(asset_infos@));
    let sorted = sort_keys(&parts);
    let ghost sv = sorted@.map_values(|x: Vec<u8>| x@);
    assert(sv == sorted_asset_keys(asset_infos@));
    let mut key: Vec<u8> = Vec::new();
    let mut j: usize = 0;
    while j < sorted.len()
        invariant
            j <= sorted@.len(),
            sv == sorted@.map_values(|x: Vec<u8>| x@),
            key@ == join_bytes(sv.take(j as int)),
        decreases sorted.len() - j,
    {
        if j > 0 {
            key.push(1u8);
        }
        extend_bytes(&mut key, sorted[j].as_slice());
        proof {
            assert(sv.take(j + 1).drop_last() =~= sv.take(j as int));
            if j == 0 {
                assert(key@ =~= sv.take(1)[0]);
            } else {
                assert(key@ =~= join_bytes(sv.take(j as int)) + seq![delimiter()] + sv[j as int]);
            }
        }
        j = j + 1;
    }
    assert(sv.take(sorted@.len() as int) =~= sv);
    key.push(1u8);
    let type_bytes = string_bytes(&pair_type.to_string());
    extend_bytes(&mut key, type_bytes.as_slice());
    assert(key@ =~= pair_key_spec(asset_infos@, *pair_type));
    key
}

/// The key after which a listing that starts after the given pair begins: the
/// pair's key with the byte 1 appended.
pub fn calc_range_start(start_after: Option<(&Vec<AssetInfo>, &PairType)>) -> (r: Option<Vec<u8>>)
    ensures
        match start_after {
            None => r is None,
            Some((a, t)) => r matches Some(k) && k@ == range_start_spec(a@, *t),
        },
{
    match start_after {
        None => None,
        Some((asset_infos, pair_type)) => {
            let mut key = pair_key(asset_infos, pair_type);
            key.push(1u8);
            Some(key)
        },
    }
}

/// The pair key does not depend on the order in which the assets are given:
/// two asset lists with the same asset bytes, counted with multiplicity, give
/// the same key.
pub proof fn lemma_pair_key_order_independent(a1: Seq<AssetInfo>, a2: Seq<AssetInfo>, t: PairType)
    requires
        asset_keys(a1).to_multiset() == asset_keys(a2).to_multiset(),
    ensures
        pair_key_spec(a1, t) == pair_key_spec(a2, t),
{
    lemma_lex_le_total_ordering();
    asset_keys(a1).lemma_sort_by_ensures(key_le());
    asset_keys(a2).lemma_sort_by_ensures(key_le());
    lemma_sorted_unique(sorted_asset_keys(a1), sorted_asset_keys(a2), key_le());
}

/// Swapping the two assets of a pair gives the same key.
pub proof fn lemma_pair_key_swap(x: AssetInfo, y: AssetInfo, t: PairType)
    ensures
        pair_key_spec(seq![x, y], t) == pair_key_spec(seq![y, x], t),
{
    let k1 = asset_keys(seq![x, y]);
    let k2 = asset_keys(seq![y, x]);
    assert(k1 =~= seq![asset_bytes(x)].push(asset_bytes(y)));
    assert(k2 =~= seq![asset_bytes(y)].push(asset_bytes(x)));
    assert(seq![asset_bytes(x)] =~= Seq::<Seq<u8>>::empty().push(asset_bytes(x)));
    assert(seq![asset_bytes(y)] =~= Seq::<Seq<u8>>::empty().push(asset_bytes(y)));
    assert(k1.to_multiset() =~= k2.to_multiset());
    lemma_pair_key_order_independent(seq![x, y], seq![y, x], t);
}

/// A byte string that holds no delimiter byte.
pub open spec fn delimiter_free(s: Seq<u8>) -> bool {
    forall|i: int| 0 <= i < s.len() ==> #[trigger] s[i] != delimiter()
}

proof fn lemma_join_len(p: Seq<Seq<u8>>)
    requires
        p.len() >= 1,
    ensures
        join_bytes(p).len() >= p.last().len(),
        join_bytes(p) == join_bytes(p).subrange(0, join_bytes(p).len() - p.last().len()) + p.last(),
        p.len() >= 2 ==> join_bytes(p).len() >= p.last().len() + 1
            && join_bytes(p)[join_bytes(p).len() - p.last().len() - 1] == delimiter()
            && join_bytes(p).subrange(0, join_bytes(p).len() - p.last().len() - 1) == join_bytes(p.drop_last()),
{
    let j = join_bytes(p);
    if p.len() == 1 {
        assert(j.subrange(0, 0) + p.last() =~= j);
    } else {
        let a = join_bytes(p.drop_last());
        assert(j == a + seq![delimiter()] + p.last());
        assert(j.subrange(0, j.len() - p.last().len()) + p.last() =~= j);
        assert(j.subrange(0, j.len() - p.last().len() - 1) =~= a);
    }
}

/// Joining delimiter-free parts with the delimiter loses nothing: equal joins
/// come from equal lists of parts.
pub proof fn lemma_join_injective(p1: Seq<Seq<u8>>, p2: Seq<Seq<u8>>)
    requires
        p1.len() >= 1,
        p2.len() >= 1,
        forall|i: int| 0 <= i < p1.len() ==> delimiter_free(#[trigger] p1[i]),
        forall|i: int| 0 <= i < p2.len() ==> delimiter_free(#[trigger] p2[i]),
        join_bytes(p1) == join_bytes(p2),
    ensures
        p1 == p2,
    decreases p1.len(),
{
    let j = join_bytes(p1);
    lemma_join_len(p1);
    lemma_join_len(p2);
    let l1 = p1.last();
    let l2 = p2.last();
    assert(delimiter_free(l1));
    assert(delimiter_free(l2));
    // the last parts are the bytes after the last delimiter
    if l1.len() < l2.len() && p1.len() >= 2 {
        let pos = j.len() - l1.len() - 1;
        assert(j[pos] == delimiter());
        assert(j[pos] == l2[pos - (j.len() - l2.len())]);
    }
    if l2.len() < l1.len() && p2.len() >= 2 {
        let pos = j.len() - l2.len() - 1;
        assert(j[pos] == delimiter());
        assert(j[pos] == l1[pos - (j.len() - l1.len())]);
    }
    if p1.len() == 1 && p2.len() >= 2 {
        let pos = j.len() - l2.len() - 1;
        assert(j == l1);
        assert(j[pos] == delimiter());
    } else if p2.len() == 1 && p1.len() >= 2 {
        let pos = j.len() - l1.len() - 1;
        assert(j == l2);
        assert(j[pos] == delimiter());
    } else if p1.len() == 1 && p2.len() == 1 {
        assert(p1 =~= p2);
    } else {
        assert(l1.len() == l2.len());
        assert(l1 =~= j.subrange(j.len() - l1.len(), j.len() as int));
        assert(l2 =~= j.subrange(j.len() - l2.len(), j.len() as int));
        let q1 = p1.drop_last();
        let q2 = p2.drop_last();
        assert forall|i: int| 0 <= i < q1.len() implies delimiter_free(#[trigger] q1[i]) by {
            assert(q1[i] == p1[i]);
        }
        assert forall|i: int| 0 <= i < q2.len() implies delimiter_free(#[trigger] q2[i]) by {
            assert(q2[i] == p2[i]);
        }
        lemma_join_injective(q1, q2);
        assert(p1 =~= q1.push(l1));
        assert(p2 =~= q2.push(l2));
    }
}

/// Pair keys do not collide: when each pair has at least one asset, no asset
/// name holds the delimiter byte, and neither pair type's text holds it, two
/// pairs with the same key have the same assets (in sorted order) and the same
/// pair type.
pub proof fn lemma_pair_key_collision_free(a1: Seq<AssetInfo>, t1: PairType, a2: Seq<AssetInfo>, t2: PairType)
    requires
        a1.len() >= 1,
        a2.len() >= 1,
        forall|i: int| 0 <= i < a1.len() ==> delimiter_free(asset_bytes(#[trigger] a1[i])),
        forall|i: int| 0 <= i < a2.len() ==> delimiter_free(asset_bytes(#[trigger] a2[i])),
        delimiter_free(utf8(pair_type_text(t1))),
        delimiter_free(utf8(pair_type_text(t2))),
        pair_key_spec(a1, t1) == pair_key_spec(a2, t2),
    ensures
        sorted_asset_keys(a1) == sorted_asset_keys(a2),
        utf8(pair_type_text(t1)) == utf8(pair_type_text(t2)),
{
    lemma_lex_le_total_ordering();
    let k1 = asset_keys(a1);
    let k2 = asset_keys(a2);
    k1.lemma_sort_by_ensures(key_le());
    k2.lemma_sort_by_ensures(key_le());
    let s1 = sorted_asset_keys(a1);
    let s2 = sorted_asset_keys(a2);
    // every sorted part is one of the asset keys
    assert forall|i: int| 0 <= i < s1.len() implies delimiter_free(#[trigger] s1[i]) by {
        assert(s1.contains(s1[i]));
        assert(k1.contains(s1[i]));
        let j = choose|j: int| 0 <= j < k1.len() && k1[j] == s1[i];
        assert(k1[j] == asset_bytes(a1[j]));
    }
    assert forall|i: int| 0 <= i < s2.len() implies delimiter_free(#[trigger] s2[i]) by {
        assert(s2.contains(s2[i]));
        assert(k2.contains(s2[i]));
        let j = choose|j: int| 0 <= j < k2.len() && k2[j] == s2[i];
        assert(k2[j] == asset_bytes(a2[j]));
    }
    assert(s1.len() == k1.len()) by {
        assert(s1.to_multiset().len() == k1.to_multiset().len());
    }
    assert(s2.len() == k2.len()) by {
        assert(s2.to_multiset().len() == k2.to_multiset().len());
    }
    let b1 = utf8(pair_type_text(t1));
    let b2 = utf8(pair_type_text(t2));
    let p1 = s1.push(b1);
    let p2 = s2.push(b2);
    assert(p1.drop_last() =~= s1);
    assert(p2.drop_last() =~= s2);
    assert(join_bytes(p1) == pair_key_spec(a1, t1));
    assert(join_bytes(p2) == pair_key_spec(a2, t2));
    assert forall|i: int| 0 <= i < p1.len() implies delimiter_free(#[trigger] p1[i]) by {
        if i < s1.len() {
            assert(p1[i] == s1[i]);
        }
    }
    assert forall|i: int| 0 <= i < p2.len() implies delimiter_free(#[trigger] p2[i]) by {
        if i < s2.len() {
            assert(p2[i] == s2[i]);
        }
    }
    lemma_join_injective(p1, p2);
    assert(s1 =~= p1.drop_last());
    assert(s2 =~= p2.drop_last());
}

} // verus!
