//! The fee granter's list of admins: at most two distinct addresses.
use vstd::prelude::*;
use vstd::string::*;
use crate::error::{Checked, StdError, generic_text};
use crate::text::{dec, decimal};

verus! {

/// The largest number of admins.
pub const MAX_ADMINS: usize = 2;

/// The texts of a list of addresses.
pub open spec fn names(v: Seq<String>) -> Seq<Seq<char>> {
    v.map_values(|a: String| a@)
}

/// The error of the first failed address check in the list, if any.
pub open spec fn first_check_error(addrs: Seq<(String, Checked)>) -> Option<StdError>
    decreases addrs.len(),
{
    if addrs.len() == 0 {
        None
    } else if addrs[0].1 is Err {
        Some(addrs[0].1->Err_0)
    } else {
        first_check_error(addrs.drop_first())
    }
}

/// The checked addresses of a list whose checks all passed.
pub open spec fn checked_names(addrs: Seq<(String, Checked)>) -> Seq<Seq<char>> {
    addrs.map_values(|p: (String, Checked)| p.1->Ok_0@)
}

/// The text of the error for adding an admin that is already there.
pub open spec fn exists_text(admin: Seq<char>) -> Seq<char> {
    generic_text("Admin "@ + admin + " already exists"@)
}

/// The text of the error for more admins than allowed.
pub open spec fn too_many_text() -> Seq<char> {
    generic_text("Maximum allowed number of admins is "@ + dec(MAX_ADMINS as nat))
}

/// `admins` with the listed addresses appended in turn: stops at the first
/// address whose check failed, or that is already an admin.
pub open spec fn with_added(admins: Seq<Seq<char>>, add: Seq<(String, Checked)>) -> Result<Seq<Seq<char>>, Seq<char>>
    decreases add.len(),
{
    if add.len() == 0 {
        Ok(admins)
    } else if add[0].1 is Err {
        Err(add[0].1->Err_0.text@)
    } else if admins.contains(add[0].1->Ok_0@) {
        Err(exists_text(add[0].0@))
    } else {
        with_added(admins.push(add[0].1->Ok_0@), add.drop_first())
    }
}

/// The entries of `s` that are not in `removed`, in their order.
pub open spec fn retained(s: Seq<Seq<char>>, removed: Seq<Seq<char>>) -> Seq<Seq<char>>
    decreases s.len(),
{
    if s.len() == 0 {
        s
    } else if removed.contains(s.last()) {
        retained(s.drop_last(), removed)
    } else {
        retained(s.drop_last(), removed).push(s.last())
    }
}

/// The admins after adding `add` and then removing `remove`, or the text of
/// the error: a failed check or a duplicate among the additions, then a failed
/// check among the removals, then too many admins.
pub open spec fn admins_update(cur: Seq<Seq<char>>, add: Seq<(String, Checked)>, remove: Seq<(String, Checked)>) -> Result<Seq<Seq<char>>, Seq<char>> {
    match with_added(cur, add) {
        Err(m) => Err(m),
        Ok(a) => match first_check_error(remove) {
            Some(e) => Err(e.text@),
            None => {
                let kept = retained(a, checked_names(remove));
                if kept.len() > MAX_ADMINS {
                    Err(too_many_text())
                } else {
                    Ok(kept)
                }
            },
        },
    }
}

proof fn lemma_with_added(cur: Seq<Seq<char>>, add: Seq<(String, Checked)>)
    requires
        cur.no_duplicates(),
        with_added(cur, add) is Ok,
    ensures
        with_added(cur, add)->Ok_0.no_duplicates(),
        forall|x: Seq<char>| #[trigger] with_added(cur, add)->Ok_0.contains(x)
            <==> cur.contains(x) || checked_names(add).contains(x),
    decreases add.len(),
{
    if add.len() > 0 {
        let a = add[0].1->Ok_0@;
        let next = cur.push(a);
        assert forall|i: int, j: int| 0 <= i < j < next.len() implies next[i] != next[j] by {
            if j == cur.len() {
                assert(cur[i] == next[i]);
            }
        };
        lemma_with_added(next, add.drop_first());
        assert(checked_names(add.drop_first()) =~= checked_names(add).drop_first());
        assert forall|x: Seq<char>| #[trigger] with_added(cur, add)->Ok_0.contains(x)
            <==> cur.contains(x) || checked_names(add).contains(x) by {
            if checked_names(add).contains(x) && x != a {
                let k = choose|k: int| 0 <= k < checked_names(add).len() && checked_names(add)[k] == x;
                assert(checked_names(add.drop_first())[k - 1] == x);
            }
            if next.contains(x) && !cur.contains(x) {
                assert(x == a);
                assert(checked_names(add)[0] == x);
            }
            if cur.contains(x) {
                let k = choose|k: int| 0 <= k < cur.len() && cur[k] == x;
                assert(next[k] == x);
            }
            if x == a {
                assert(next[cur.len() as int] == x);
            }
            if checked_names(add.drop_first()).contains(x) {
                let k = choose|k: int| 0 <= k < checked_names(add.drop_first()).len() && checked_names(add.drop_first())[k] == x;
                assert(checked_names(add)[k + 1] == x);
            }
        };
    }
}

proof fn lemma_retained(s: Seq<Seq<char>>, removed: Seq<Seq<char>>)
    requires
        s.no_duplicates(),
    ensures
        retained(s, removed).no_duplicates(),
        forall|x: Seq<char>| #[trigger] retained(s, removed).contains(x) <==> s.contains(x) && !removed.contains(x),
    decreases s.len(),
{
    if s.len() > 0 {
        let p = s.drop_last();
        assert forall|i: int, j: int| 0 <= i < j < p.len() implies p[i] != p[j] by {
            assert(p[i] == s[i] && p[j] == s[j]);
        };
        lemma_retained(p, removed);
        let r = retained(p, removed);
        assert forall|x: Seq<char>| p.contains(x) <==> s.contains(x) && x != s.last() by {
            if p.contains(x) {
                let k = choose|k: int| 0 <= k < p.len() && p[k] == x;
                assert(s[k] == x);
                assert(s[k] != s[s.len() - 1]);
            }
            if s.contains(x) && x != s.last() {
                let k = choose|k: int| 0 <= k < s.len() && s[k] == x;
                assert(k != s.len() - 1);
                assert(p[k] == x);
            }
        };
        if !removed.contains(s.last()) {
            let q = r.push(s.last());
            assert forall|i: int, j: int| 0 <= i < j < q.len() implies q[i] != q[j] by {
                if j == r.len() {
                    assert(r.contains(r[i]));
                }
            };
            assert forall|x: Seq<char>| #[trigger] q.contains(x) <==> s.contains(x) && !removed.contains(x) by {
                if r.contains(x) {
                    let k = choose|k: int| 0 <= k < r.len() && r[k] == x;
                    assert(q[k] == x);
                }
                if x == s.last() {
                    assert(q[r.len() as int] == x);
                }
                if q.contains(x) && x != s.last() {
                    let k = choose|k: int| 0 <= k < q.len() && q[k] == x;
                    assert(r[k] == x);
                }
            };
        }
    }
}

/// A successful update of a list of distinct admins leaves distinct admins, at
/// most two of them: exactly those that were admins or were added, less those
/// that were removed.
pub proof fn lemma_admins_update(cur: Seq<Seq<char>>, add: Seq<(String, Checked)>, remove: Seq<(String, Checked)>)
    requires
        cur.no_duplicates(),
        admins_update(cur, add, remove) is Ok,
    ensures
        ({
            let v = admins_update(cur, add, remove)->Ok_0;
            &&& v.no_duplicates()
            &&& v.len() <= MAX_ADMINS
            &&& forall|x: Seq<char>| #[trigger] v.contains(x) <==> (cur.contains(x) || checked_names(add).contains(x))
                && !checked_names(remove).contains(x)
        }),
{
    lemma_with_added(cur, add);
    lemma_retained(with_added(cur, add)->Ok_0, checked_names(remove));
}

/// Whether the list holds the address `a`.
fn holds(v: &Vec<String>, a: &String) -> (r: bool)
    ensures
        r == names(v@).contains(a@),
{
    let mut i: usize = 0;
    while i < v.len()
        invariant
            i <= v@.len(),
            forall|j: int| 0 <= j < i ==> v@[j]@ != a@,
        decreases v.len() - i,
    {
        if v[i] == *a {
            assert(names(v@)[i as int] == a@);
            return true;
        }
        i = i + 1;
    }
    proof {
        if names(v@).contains(a@) {
            let j = choose|j: int| 0 <= j < names(v@).len() && names(v@)[j] == a@;
            assert(v@[j]@ == a@);
        }
    }
    false
}

/// The error of the first failed check of the list, if any.
fn find_check_error(addrs: &Vec<(String, Checked)>) -> (r: Option<StdError>)
    ensures
        r == first_check_error(addrs@),
{
    let mut i: usize = 0;
    assert(addrs@.skip(0) =~= addrs@);
    while i < addrs.len()
        invariant
            i <= addrs@.len(),
            first_check_error(addrs@) == first_check_error(addrs@.skip(i as int)),
        decreases addrs.len() - i,
    {
        assert(addrs@.skip(i as int)[0] == addrs@[i as int]);
        if let Err(e) = &addrs[i].1 {
            return Some(StdError { text: e.text.clone() });
        }
        assert(addrs@.skip(i as int).drop_first() =~= addrs@.skip(i + 1));
        i = i + 1;
    }
    None
}

/// Whether `removed` holds `a`, over a list whose checks all passed.
fn among_checked(removed: &Vec<(String, Checked)>, a: &String) -> (r: bool)
    requires
        first_check_error(removed@) is None,
    ensures
        r == checked_names(removed@).contains(a@),
{
    let mut i: usize = 0;
    while i < removed.len()
        invariant
            i <= removed@.len(),
            first_check_error(removed@) is None,
            forall|j: int| 0 <= j < i ==> checked_names(removed@)[j] != a@,
        decreases removed.len() - i,
    {
        proof { lemma_first_check_error_none(removed@, i as int); }
        match &removed[i].1 {
            Ok(x) => {
                if *x == *a {
                    assert(checked_names(removed@)[i as int] == a@);
                    return true;
                }
            },
            Err(_) => {},
        }
        i = i + 1;
    }
    false
}

proof fn lemma_first_check_error_none(addrs: Seq<(String, Checked)>, i: int)
    requires
        first_check_error(addrs) is None,
        0 <= i < addrs.len(),
    ensures
        addrs[i].1 is Ok,
    decreases i,
{
    if i > 0 {
        assert(addrs.drop_first()[i - 1] == addrs[i]);
        lemma_first_check_error_none(addrs.drop_first(), i - 1);
    }
}

/// Adds the `add` addresses to `admins` and removes the `remove` ones (each
/// with what the chain's address check answered for it). Fails on an address
/// whose check failed, on adding an existing admin, or when more than two
/// admins would remain.
pub fn update_admins_with_validation(admins: Vec<String>, add: &Vec<(String, Checked)>, remove: &Vec<(String, Checked)>) -> (r: Result<Vec<String>, StdError>)
    ensures
        match admins_update(names(admins@), add@, remove@) {
            Ok(a) => r matches Ok(v) && names(v@) == a,
            Err(m) => r matches Err(e) && e.text@ == m,
        },
{
    let ghost cur = names(admins@);
    let mut list = admins;
    let mut i: usize = 0;
    assert(add@.skip(0) =~= add@);
    while i < add.len()
        invariant
            i <= add@.len(),
            cur == names(admins@),
            with_added(cur, add@) == with_added(names(list@), add@.skip(i as int)),
        decreases add.len() - i,
    {
        assert(add@.skip(i as int)[0] == add@[i as int]);
        assert(add@.skip(i as int).drop_first() =~= add@.skip(i + 1));
        let a = match &add[i].1 {
            Ok(a) => a,
            Err(e) => return Err(StdError { text: e.text.clone() }),
        };
        if holds(&list, a) {
            let mut msg = String::from_str("Admin ");
            msg.append(add[i].0.as_str());
            msg.append(" already exists");
            proof {
                reveal_strlit("Admin ");
                reveal_strlit(" already exists");
            }
            return Err(StdError::generic_err(msg));
        }
        let ghost before = names(list@);
        list.push(a.clone());
        assert(names(list@) =~= before.push(a@));
        i = i + 1;
    }
    assert(add@.skip(add@.len() as int) =~= Seq::<(String, Checked)>::empty());
    if let Some(e) = find_check_error(remove) {
        return Err(e);
    }
    let ghost a = names(list@);
    let ghost removed = checked_names(remove@);
    let mut kept: Vec<String> = Vec::new();
    let mut j: usize = 0;
    while j < list.len()
        invariant
            j <= list@.len(),
            a == names(list@),
            removed == checked_names(remove@),
            first_check_error(remove@) is None,
            names(kept@) == retained(a.take(j as int), removed),
        decreases list.len() - j,
    {
        assert(a.take(j + 1).drop_last() =~= a.take(j as int));
        assert(a.take(j + 1).last() == list@[j as int]@);
        if !among_checked(remove, &list[j]) {
            kept.push(list[j].clone());
            assert(names(kept@) =~= retained(a.take(j as int), removed).push(list@[j as int]@));
        }
        j = j + 1;
    }
    assert(a.take(list@.len() as int) =~= a);
    if kept.len() > MAX_ADMINS {
        let mut msg = String::from_str("Maximum allowed number of admins is ");
        msg.append(decimal(MAX_ADMINS as u128).as_str());
        proof { reveal_strlit("Maximum allowed number of admins is "); }
        return Err(StdError::generic_err(msg));
    }
    Ok(kept)
}

} // verus!
