//! The order in which the stored pairs were created, oldest first.
use vstd::prelude::*;
use crate::bytes::{compare_bytes, KeyOrder};

verus! {

/// The keys as byte sequences.
pub open spec fn keys_view(v: Seq<Vec<u8>>) -> Seq<Seq<u8>> {
    v.map_values(|k: Vec<u8>| k@)
}

/// The position of `k` in `s`.
pub open spec fn key_pos(s: Seq<Seq<u8>>, k: Seq<u8>) -> int {
    choose|i: int| 0 <= i < s.len() && s[i] == k
}

/// `order` lists each key of `keys` exactly once, and nothing else.
pub open spec fn lists_once(order: Seq<Seq<u8>>, keys: Set<Seq<u8>>) -> bool {
    &&& order.no_duplicates()
    &&& forall|k: Seq<u8>| #[trigger] order.contains(k) <==> keys.contains(k)
}

/// In a list without duplicates, the position of a listed key is the one
/// index that holds it.
pub proof fn lemma_key_pos(s: Seq<Seq<u8>>, i: int)
    requires
        s.no_duplicates(),
        0 <= i < s.len(),
    ensures
        key_pos(s, s[i]) == i,
{
    let j = key_pos(s, s[i]);
    assert(0 <= j < s.len() && s[j] == s[i]);
}

/// Appending a key not yet listed keeps the list exact.
pub proof fn lemma_lists_once_push(order: Seq<Seq<u8>>, keys: Set<Seq<u8>>, k: Seq<u8>)
    requires
        lists_once(order, keys),
        !keys.contains(k),
    ensures
        lists_once(order.push(k), keys.insert(k)),
{
    assert forall|x: Seq<u8>| #[trigger] order.push(k).contains(x) <==> keys.insert(k).contains(x) by {
        if order.push(k).contains(x) {
            let i = choose|i: int| 0 <= i < order.push(k).len() && order.push(k)[i] == x;
            if i < order.len() {
                assert(order.contains(x));
            }
        }
        if order.contains(x) {
            let i = choose|i: int| 0 <= i < order.len() && order[i] == x;
            assert(order.push(k)[i] == x);
        }
        assert(order.push(k)[order.len() as int] == k);
    }
    assert forall|i: int, j: int| 0 <= i < order.push(k).len() && 0 <= j < order.push(k).len() && i != j
        implies order.push(k)[i] != order.push(k)[j] by {
        if i < order.len() && j < order.len() {
        } else if i < order.len() {
            assert(order.contains(order[i]));
        } else {
            assert(order.contains(order[j]));
        }
    }
}

/// Dropping a listed key keeps the list exact.
pub proof fn lemma_lists_once_remove(order: Seq<Seq<u8>>, keys: Set<Seq<u8>>, k: Seq<u8>)
    requires
        lists_once(order, keys),
        keys.contains(k),
    ensures
        lists_once(order.remove(key_pos(order, k)), keys.remove(k)),
{
    assert(order.contains(k));
    let p = key_pos(order, k);
    let r = order.remove(p);
    assert(0 <= p < order.len() && order[p] == k);
    assert forall|i: int| 0 <= i < r.len() implies #[trigger] r[i] == (if i < p { order[i] } else { order[i + 1] }) by {}
    assert forall|x: Seq<u8>| #[trigger] r.contains(x) <==> keys.remove(k).contains(x) by {
        if r.contains(x) {
            let i = choose|i: int| 0 <= i < r.len() && r[i] == x;
            if i < p {
                assert(order[i] == x);
                assert(order.contains(x));
            } else {
                assert(order[i + 1] == x);
                assert(order.contains(x));
            }
        }
        if keys.remove(k).contains(x) {
            assert(order.contains(x));
            let i = choose|i: int| 0 <= i < order.len() && order[i] == x;
            if i < p {
                assert(r[i] == x);
            } else {
                assert(i != p);
                assert(r[i - 1] == x);
            }
        }
    }
    assert forall|i: int, j: int| 0 <= i < r.len() && 0 <= j < r.len() && i != j implies r[i] != r[j] by {
        let oi = if i < p { i } else { i + 1 };
        let oj = if j < p { j } else { j + 1 };
        assert(r[i] == order[oi]);
        assert(r[j] == order[oj]);
    }
}

/// Putting a key not yet listed in the place of a listed one keeps the list exact.
pub proof fn lemma_lists_once_update(order: Seq<Seq<u8>>, keys: Set<Seq<u8>>, raw: Seq<u8>, key: Seq<u8>)
    requires
        lists_once(order, keys),
        keys.contains(raw),
        !keys.contains(key),
    ensures
        lists_once(order.update(key_pos(order, raw), key), keys.insert(key).remove(raw)),
{
    assert(order.contains(raw));
    let p = key_pos(order, raw);
    let u = order.update(p, key);
    assert(0 <= p < order.len() && order[p] == raw);
    assert forall|x: Seq<u8>| #[trigger] u.contains(x) <==> keys.insert(key).remove(raw).contains(x) by {
        if u.contains(x) {
            let i = choose|i: int| 0 <= i < u.len() && u[i] == x;
            if i != p {
                assert(order[i] == x);
                assert(order.contains(x));
                assert(x != raw);
            }
        }
        if keys.insert(key).remove(raw).contains(x) {
            if x == key {
                assert(u[p] == x);
            } else {
                assert(order.contains(x));
                let i = choose|i: int| 0 <= i < order.len() && order[i] == x;
                assert(i != p);
                assert(u[i] == x);
            }
        }
    }
    assert forall|i: int, j: int| 0 <= i < u.len() && 0 <= j < u.len() && i != j implies u[i] != u[j] by {
        if i == p {
            assert(order.contains(order[j]));
        } else if j == p {
            assert(order.contains(order[i]));
        }
    }
}

/// The index of `k` in `v`, if it is there.
pub fn find_key(v: &Vec<Vec<u8>>, k: &Vec<u8>) -> (r: Option<usize>)
    ensures
        r matches Some(i) ==> i < v@.len() && keys_view(v@)[i as int] == k@,
        r is None ==> !keys_view(v@).contains(k@),
{
    let mut i: usize = 0;
    while i < v.len()
        invariant
            i <= v@.len(),
            forall|j: int| 0 <= j < i ==> keys_view(v@)[j] != k@,
        decreases v.len() - i,
    {
        match compare_bytes(v[i].as_slice(), k.as_slice()) {
            KeyOrder::Same => {
                return Some(i);
            },
            _ => {},
        }
        i = i + 1;
    }
    None
}

/// Drops the listed key `k` from `v`.
pub fn remove_key(v: &mut Vec<Vec<u8>>, k: &Vec<u8>)
    requires
        keys_view(old(v)@).no_duplicates(),
        keys_view(old(v)@).contains(k@),
    ensures
        keys_view(final(v)@) == keys_view(old(v)@).remove(key_pos(keys_view(old(v)@), k@)),
{
    let ghost s = keys_view(v@);
    match find_key(v, k) {
        Some(i) => {
            proof {
                lemma_key_pos(s, i as int);
            }
            v.remove(i);
            assert(keys_view(v@) =~= s.remove(i as int));
        },
        None => {},
    }
}

/// Puts `key` in the place of the listed key `raw` in `v`.
pub fn replace_key(v: &mut Vec<Vec<u8>>, raw: &Vec<u8>, key: Vec<u8>)
    requires
        keys_view(old(v)@).no_duplicates(),
        keys_view(old(v)@).contains(raw@),
    ensures
        keys_view(final(v)@) == keys_view(old(v)@).update(key_pos(keys_view(old(v)@), raw@), key@),
{
    let ghost s = keys_view(v@);
    let ghost kv = key@;
    match find_key(v, raw) {
        Some(i) => {
            proof {
                lemma_key_pos(s, i as int);
            }
            v.set(i, key);
            assert(keys_view(v@) =~= s.update(i as int, kv));
        },
        None => {},
    }
}

} // verus!
