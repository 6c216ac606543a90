use vstd::prelude::*;
use vstd::seq_lib::group_to_multiset_ensures;
use crate::username::Username;

verus! {

/// A contact: one stored message seen from the viewer's side, reduced to
/// the partner's id and the send time (seconds since the epoch). The
/// fetch side hands every message the viewer sent or received, in any
/// order.
pub open spec fn has_contact(s: Seq<(i32, i64)>, id: i32) -> bool {
    exists|k: int| 0 <= k < s.len() && s[k].0 == id
}

/// `t` is the most recent contact time with partner `id` among `s`.
pub open spec fn is_latest(s: Seq<(i32, i64)>, id: i32, t: i64) -> bool {
    &&& exists|k: int| 0 <= k < s.len() && s[k] == (id, t)
    &&& forall|k: int| 0 <= k < s.len() && s[k].0 == id ==> s[k].1 <= t
}

/// Law: the most recent contact time with a partner is unique.
pub proof fn lemma_latest_unique(s: Seq<(i32, i64)>, id: i32, t1: i64, t2: i64)
    requires
        is_latest(s, id, t1),
        is_latest(s, id, t2),
    ensures
        t1 == t2,
{
    let k1 = choose|k: int| 0 <= k < s.len() && s[k] == (id, t1);
    let k2 = choose|k: int| 0 <= k < s.len() && s[k] == (id, t2);
    assert(s[k1].1 <= t2);
    assert(s[k2].1 <= t1);
}

/// Contact lists that hold the same contacts agree on who was contacted
/// and when most recently; the fetch order of the rows is irrelevant.
pub proof fn lemma_permutation_preserves_latest(s1: Seq<(i32, i64)>, s2: Seq<(i32, i64)>)
    requires
        s1.to_multiset() == s2.to_multiset(),
    ensures
        forall|id: i32| has_contact(s1, id) ==> has_contact(s2, id),
        forall|id: i32, t: i64| is_latest(s1, id, t) ==> is_latest(s2, id, t),
{
    broadcast use group_to_multiset_ensures;

    assert forall|id: i32| has_contact(s1, id) implies has_contact(s2, id) by {
        let k = choose|k: int| 0 <= k < s1.len() && s1[k].0 == id;
        let p = s1[k];
        assert(s1.contains(p));
        assert(s1.to_multiset().count(p) > 0);
        assert(s2.to_multiset().count(p) > 0);
        assert(s2.contains(p));
        let k2 = choose|k2: int| 0 <= k2 < s2.len() && s2[k2] == p;
        assert(s2[k2].0 == id);
    }
    assert forall|id: i32, t: i64| is_latest(s1, id, t) implies is_latest(s2, id, t) by {
        let k = choose|k: int| 0 <= k < s1.len() && s1[k] == (id, t);
        assert(s1.contains((id, t)));
        assert(s1.to_multiset().count((id, t)) > 0);
        assert(s2.to_multiset().count((id, t)) > 0);
        assert(s2.contains((id, t)));
        assert forall|k2: int| 0 <= k2 < s2.len() && s2[k2].0 == id implies s2[k2].1 <= t by {
            let p = s2[k2];
            assert(s2.contains(p));
            assert(s2.to_multiset().count(p) > 0);
            assert(s1.to_multiset().count(p) > 0);
            assert(s1.contains(p));
            let k1 = choose|k1: int| 0 <= k1 < s1.len() && s1[k1] == p;
            assert(s1[k1].1 <= t);
        }
        let k2 = choose|k2: int| 0 <= k2 < s2.len() && s2[k2] == (id, t);
        assert(0 <= k2 < s2.len() && s2[k2] == (id, t));
    }
}

/// `id` was contacted at time `t` somewhere in the first `n` contacts.
pub open spec fn occurs_before(s: Seq<(i32, i64)>, n: int, id: i32, t: i64) -> bool {
    exists|k: int| 0 <= k < n && #[trigger] s[k] == (id, t)
}

/// Contacts ordered by send time, newest first.
pub open spec fn contacts_time_sorted_desc(s: Seq<(i32, i64)>) -> bool {
    forall|i: int, j: int| 0 <= i < j < s.len() ==> s[i].1 >= s[j].1
}

/// Sorts contacts by send time, newest first. The result holds exactly
/// the given contacts.
fn sort_contacts_desc(contacts: Vec<(i32, i64)>) -> (r: Vec<(i32, i64)>)
    ensures
        contacts_time_sorted_desc(r@),
        r@.to_multiset() == contacts@.to_multiset(),
{
    broadcast use group_to_multiset_ensures, vstd::multiset::group_multiset_axioms;

    let ghost orig = contacts@;
    let mut rest = contacts;
    let mut out: Vec<(i32, i64)> = Vec::new();
    while rest.len() > 0
        invariant
            contacts_time_sorted_desc(out@),
            out@.to_multiset().add(rest@.to_multiset()) == orig.to_multiset(),
            forall|k: int, l: int|
                0 <= k < out@.len() && 0 <= l < rest@.len() ==> out@[k].1 >= rest@[l].1,
        decreases rest.len(),
    {
        let mut m: usize = 0;
        let mut j: usize = 1;
        while j < rest.len()
            invariant
                m < rest.len(),
                j <= rest.len(),
                forall|l: int| 0 <= l < j ==> rest@[m as int].1 >= rest@[l].1,
            decreases rest.len() - j,
        {
            if rest[j].1 > rest[m].1 {
                m = j;
            }
            j = j + 1;
        }
        let ghost rest_before = rest@;
        let pair = rest.remove(m);
        let ghost out_before = out@;
        out.push(pair);
        proof {
            broadcast use group_to_multiset_ensures, vstd::multiset::group_multiset_axioms;

            assert(rest@ == rest_before.remove(m as int));
            assert(rest_before.remove(m as int).to_multiset() =~= rest_before.to_multiset()
                .remove(rest_before[m as int]));
            assert(forall|l: int|
                0 <= l < rest@.len() ==> rest@[l] == (if l < m as int {
                    rest_before[l]
                } else {
                    rest_before[l + 1]
                }));
            assert(out@ == out_before.push(pair));
            assert(out_before.push(pair).to_multiset() =~= out_before.to_multiset().insert(pair));
            assert(rest_before.to_multiset().contains(pair));
            assert(out@.to_multiset().add(rest@.to_multiset()) =~= orig.to_multiset());
        }
    }
    out
}

/// Every distinct conversation partner in the viewer's messages, ordered
/// by the most recent exchange, newest first. Feeds the friend list in
/// the sidebar.
pub fn get_friends(contacts: Vec<(i32, i64)>) -> (r: Vec<i32>)
    ensures
        forall|a: int, b: int| 0 <= a < b < r@.len() ==> r@[a] != r@[b],
        forall|id: i32| r@.contains(id) <==> has_contact(contacts@, id),
        forall|a: int, b: int, ta: i64, tb: i64|
            0 <= a < b < r@.len() && is_latest(contacts@, r@[a], ta) && is_latest(
                contacts@,
                r@[b],
                tb,
            ) ==> ta >= tb,
{
    let ghost orig = contacts@;
    let sorted = sort_contacts_desc(contacts);
    let ghost s = sorted@;
    proof {
        lemma_permutation_preserves_latest(s, orig);
        lemma_permutation_preserves_latest(orig, s);
    }
    let mut out: Vec<i32> = Vec::new();
    let ghost mut times: Seq<i64> = Seq::empty();
    let mut i: usize = 0;
    while i < sorted.len()
        invariant
            i <= sorted.len(),
            sorted@ == s,
            contacts_time_sorted_desc(s),
            times.len() == out@.len(),
            forall|a: int, b: int| 0 <= a < b < out@.len() ==> out@[a] != out@[b],
            forall|id: i32| out@.contains(id) <==> has_contact(s.subrange(0, i as int), id),
            forall|a: int| 0 <= a < out@.len() ==> is_latest(s, out@[a], times[a]),
            forall|a: int| 0 <= a < out@.len() ==> occurs_before(s, i as int, out@[a], times[a]),
            forall|a: int, b: int| 0 <= a < b < out@.len() ==> times[a] >= times[b],
        decreases sorted.len() - i,
    {
        let id = sorted[i].0;
        let mut j: usize = 0;
        let mut found = false;
        while j < out.len()
            invariant
                j <= out@.len(),
                found <==> exists|l: int| 0 <= l < j && out@[l] == id,
            decreases out@.len() - j,
        {
            if out[j] == id {
                found = true;
            }
            j = j + 1;
        }
        let ghost out_before = out@;
        let ghost times_before = times;
        if !found {
            proof {
                // first contact with this partner: nothing in the prefix
                // carries its id, and everything at or after position i is
                // no newer than position i.
                assert(!out@.contains(id)) by {
                    if out@.contains(id) {
                        let l = choose|l: int| 0 <= l < out@.len() && out@[l] == id;
                        assert(exists|l: int| 0 <= l < j && out@[l] == id);
                    }
                }
                assert(!has_contact(s.subrange(0, i as int), id));
                assert forall|k: int| 0 <= k < i implies s[k].0 != id by {
                    if s[k].0 == id {
                        assert(s.subrange(0, i as int)[k].0 == id);
                    }
                }
                assert(s[i as int] == (id, s[i as int].1));
                assert(is_latest(s, id, s[i as int].1));
            }
            out.push(id);
            proof {
                times = times.push(s[i as int].1);
                assert forall|a: int, b: int|
                    0 <= a < b < out@.len() implies times[a] >= times[b] by {
                    if b == out@.len() - 1 {
                        assert(occurs_before(s, i as int, out_before[a], times_before[a]));
                        let k = choose|k: int|
                            0 <= k < i && #[trigger] s[k] == (out_before[a], times_before[a]);
                        assert(s[k].1 >= s[i as int].1);
                    }
                }
                assert(occurs_before(s, i as int + 1, id, s[i as int].1));
            }
        }
        proof {
            assert(s.subrange(0, i as int + 1) =~= s.subrange(0, i as int).push(s[i as int]));
            assert forall|idq: i32|
                out@.contains(idq) implies has_contact(s.subrange(0, i as int + 1), idq) by {
                if out_before.contains(idq) {
                    let k = choose|k: int|
                        0 <= k < i && s.subrange(0, i as int)[k].0 == idq;
                    assert(s.subrange(0, i as int + 1)[k].0 == idq);
                } else {
                    assert(idq == id);
                    assert(s.subrange(0, i as int + 1)[i as int].0 == id);
                }
            }
            assert forall|idq: i32|
                has_contact(s.subrange(0, i as int + 1), idq) implies out@.contains(idq) by {
                let sub = s.subrange(0, i as int + 1);
                let k = choose|k: int| 0 <= k < sub.len() && (#[trigger] sub[k]).0 == idq;
                if k < i {
                    assert(has_contact(s.subrange(0, i as int), idq));
                    assert(out_before.contains(idq));
                    let l = choose|l: int| 0 <= l < out_before.len() && out_before[l] == idq;
                    assert(out@[l] == idq);
                } else {
                    assert(idq == id);
                    if found {
                        let l = choose|l: int| 0 <= l < out_before.len() && out_before[l] == id;
                        assert(out@[l] == id);
                    } else {
                        assert(out@[out@.len() - 1] == id);
                    }
                }
            }
        }
        i = i + 1;
    }
    proof {
        assert(s.subrange(0, s.len() as int) =~= s);
        assert forall|a: int, b: int, ta: i64, tb: i64|
            0 <= a < b < out@.len() && is_latest(orig, out@[a], ta) && is_latest(
                orig,
                out@[b],
                tb,
            ) implies ta >= tb by {
            lemma_latest_unique(s, out@[a], times[a], ta);
            lemma_latest_unique(s, out@[b], times[b], tb);
        }
    }
    out
}

/// The sidebar's friend list: the ordered partners, already resolved to
/// their names by the store.
pub struct FiendListInfo {
    pub friends: Vec<Username>,
}

impl FiendListInfo {
    pub fn new(friends: Vec<Username>) -> (r: Self)
        ensures
            r.friends == friends,
    {
        FiendListInfo { friends }
    }
}

} // verus!
