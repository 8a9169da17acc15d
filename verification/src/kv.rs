//! Association lists from string keys to values, together with the
//! mathematical map they denote. The credential store keeps its two
//! tables in this form, with unique keys as its invariant.
use vstd::prelude::*;

verus! {

/// No key occurs twice in the list.
pub open spec fn unique_keys<V>(s: Seq<(String, V)>) -> bool {
    forall|i: int, j: int| 0 <= i < j < s.len() ==> s[i].0@ != s[j].0@
}

/// The mapping an association list denotes; a later entry for the same
/// key wins, so on a list with unique keys this is simply "the entry".
pub open spec fn kv_map<V: View>(s: Seq<(String, V)>) -> Map<Seq<char>, V::V>
    decreases s.len(),
{
    if s.len() == 0 {
        Map::empty()
    } else {
        kv_map(s.drop_last()).insert(s.last().0@, s.last().1@)
    }
}

/// A key is in the map exactly when some entry carries it.
pub proof fn lemma_kv_dom<V: View>(s: Seq<(String, V)>, k: Seq<char>)
    ensures
        kv_map(s).dom().contains(k) <==> exists|i: int| 0 <= i < s.len() && s[i].0@ == k,
    decreases s.len(),
{
    if s.len() > 0 {
        lemma_kv_dom(s.drop_last(), k);
        if s.last().0@ == k {
            assert(s[s.len() - 1].0@ == k);
        } else {
            if kv_map(s).dom().contains(k) {
                let i = choose|i: int| 0 <= i < s.drop_last().len() && s.drop_last()[i].0@ == k;
                assert(s[i].0@ == k);
            }
            if exists|i: int| 0 <= i < s.len() && s[i].0@ == k {
                let i = choose|i: int| 0 <= i < s.len() && s[i].0@ == k;
                assert(s.drop_last()[i].0@ == k);
            }
        }
    }
}

/// On a list with unique keys, the map sends each entry's key to that
/// entry's value.
pub proof fn lemma_kv_get<V: View>(s: Seq<(String, V)>, i: int)
    requires
        unique_keys(s),
        0 <= i < s.len(),
    ensures
        kv_map(s).dom().contains(s[i].0@),
        kv_map(s)[s[i].0@] == s[i].1@,
    decreases s.len(),
{
    if i < s.len() - 1 {
        assert(s[i].0@ != s[s.len() - 1].0@);
        assert(unique_keys(s.drop_last())) by {
            assert forall|x: int, y: int| 0 <= x < y < s.drop_last().len() implies s.drop_last()[x].0@
                != s.drop_last()[y].0@ by {
                assert(s[x].0@ != s[y].0@);
            }
        }
        lemma_kv_get(s.drop_last(), i);
        assert(s.drop_last()[i] == s[i]);
    }
}

/// Unique keys survive dropping the last entry.
proof fn lemma_unique_drop_last<V>(s: Seq<(String, V)>)
    requires
        unique_keys(s),
        s.len() > 0,
    ensures
        unique_keys(s.drop_last()),
{
    assert forall|x: int, y: int| 0 <= x < y < s.drop_last().len() implies s.drop_last()[x].0@
        != s.drop_last()[y].0@ by {
        assert(s[x].0@ != s[y].0@);
    }
}

/// Removing the entry at `i` removes exactly its key from the map.
pub proof fn lemma_kv_remove<V: View>(s: Seq<(String, V)>, i: int)
    requires
        unique_keys(s),
        0 <= i < s.len(),
    ensures
        unique_keys(s.remove(i)),
        kv_map(s.remove(i)) == kv_map(s).remove(s[i].0@),
    decreases s.len(),
{
    let k = s[i].0@;
    assert(unique_keys(s.remove(i))) by {
        assert forall|x: int, y: int| 0 <= x < y < s.remove(i).len() implies s.remove(i)[x].0@
            != s.remove(i)[y].0@ by {
            let x0 = if x < i { x } else { x + 1 };
            let y0 = if y < i { y } else { y + 1 };
            assert(s.remove(i)[x] == s[x0]);
            assert(s.remove(i)[y] == s[y0]);
            assert(s[x0].0@ != s[y0].0@);
        }
    }
    if i == s.len() - 1 {
        assert(s.remove(i) =~= s.drop_last());
        lemma_unique_drop_last(s);
        lemma_kv_dom(s.drop_last(), k);
        assert(forall|j: int| 0 <= j < s.drop_last().len() ==> s.drop_last()[j].0@ != k);
        assert(!kv_map(s.drop_last()).dom().contains(k));
        assert(kv_map(s.drop_last()) =~= kv_map(s).remove(k));
    } else {
        let dl = s.drop_last();
        let kl = s.last().0@;
        lemma_unique_drop_last(s);
        lemma_kv_remove(dl, i);
        assert(s.remove(i).drop_last() =~= dl.remove(i));
        assert(s.remove(i).last() == s.last());
        assert(s.remove(i).len() > 0);
        assert(kv_map(s.remove(i)) == kv_map(dl.remove(i)).insert(kl, s.last().1@));
        assert(k != kl);
        assert(kv_map(dl).remove(k).insert(kl, s.last().1@) =~= kv_map(dl).insert(
            kl,
            s.last().1@,
        ).remove(k));
    }
}

/// Appending an entry adds exactly its key to the map.
pub proof fn lemma_kv_push<V: View>(s: Seq<(String, V)>, p: (String, V))
    ensures
        kv_map(s.push(p)) == kv_map(s).insert(p.0@, p.1@),
        unique_keys(s) && (forall|i: int| 0 <= i < s.len() ==> s[i].0@ != p.0@) ==> unique_keys(
            s.push(p),
        ),
{
    assert(s.push(p).drop_last() =~= s);
    assert(s.push(p).last() == p);
    assert(s.push(p).len() > 0);
    if unique_keys(s) && (forall|i: int| 0 <= i < s.len() ==> s[i].0@ != p.0@) {
        assert forall|x: int, y: int| 0 <= x < y < s.push(p).len() implies s.push(p)[x].0@ != s.push(
            p,
        )[y].0@ by {
            if y < s.len() {
                assert(s[x].0@ != s[y].0@);
            } else {
                assert(s.push(p)[y] == p);
                assert(s[x].0@ != p.0@);
            }
        }
    }
}

/// Two entry lists whose keys and values agree view-for-view denote the
/// same map.
pub proof fn lemma_kv_views_equal<V: View>(a: Seq<(String, V)>, b: Seq<(String, V)>)
    requires
        a.len() == b.len(),
        forall|t: int| 0 <= t < a.len() ==> a[t].0@ == b[t].0@ && a[t].1@ == b[t].1@,
    ensures
        kv_map(a) == kv_map(b),
    decreases a.len(),
{
    if a.len() > 0 {
        lemma_kv_views_equal(a.drop_last(), b.drop_last());
        assert(kv_map(a) =~= kv_map(b));
    }
}

} // verus!
