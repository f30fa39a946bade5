//! Lists of named values with distinct names, seen as maps from name to value.
use vstd::prelude::*;

verus! {

/// The names of the list are all different.
pub open spec fn names_unique<V>(v: Seq<(String, V)>) -> bool {
    forall|i: int, j: int| 0 <= i < v.len() && 0 <= j < v.len() && i != j ==> v[i].0@ != v[j].0@
}

/// The list seen as a map from each name to the view of its value.
pub open spec fn named_map<V: View>(v: Seq<(String, V)>) -> Map<Seq<char>, V::V> {
    Map::new(
        |k: Seq<char>| exists|i: int| 0 <= i < v.len() && v[i].0@ == k,
        |k: Seq<char>| v[choose|i: int| 0 <= i < v.len() && v[i].0@ == k].1@,
    )
}

/// Replacing the value of a name that is in the list maps that name to the new value.
pub proof fn lemma_replace<V: View>(v: Seq<(String, V)>, j: int, name: String, e: V)
    requires
        names_unique(v),
        0 <= j < v.len(),
        v[j].0@ == name@,
    ensures
        names_unique(v.update(j, (name, e))),
        named_map(v.update(j, (name, e))) == named_map(v).insert(name@, e@),
{
    let w = v.update(j, (name, e));
    assert forall|k: Seq<char>| #[trigger] named_map(w).dom().contains(k) == named_map(v).insert(
        name@,
        e@,
    ).dom().contains(k) by {
        if exists|i: int| 0 <= i < v.len() && v[i].0@ == k {
            let i = choose|i: int| 0 <= i < v.len() && v[i].0@ == k;
            assert(w[i].0@ == k);
        }
        if exists|i: int| 0 <= i < w.len() && w[i].0@ == k {
            let i = choose|i: int| 0 <= i < w.len() && w[i].0@ == k;
            if i != j {
                assert(v[i].0@ == k);
            }
        }
    }
    assert forall|k: Seq<char>| #[trigger] named_map(w).dom().contains(k) implies named_map(w)[k]
        == named_map(v).insert(name@, e@)[k] by {
        let i = choose|i: int| 0 <= i < w.len() && w[i].0@ == k;
        if k == name@ {
            assert(i == j);
        } else {
            assert(i != j);
            assert(v[i].0@ == k);
            let i2 = choose|i: int| 0 <= i < v.len() && v[i].0@ == k;
            assert(i2 == i);
        }
    }
    assert(named_map(w) =~= named_map(v).insert(name@, e@));
}

/// Adding a name that is not in the list maps it to its value.
pub proof fn lemma_add<V: View>(v: Seq<(String, V)>, name: String, e: V)
    requires
        names_unique(v),
        forall|i: int| 0 <= i < v.len() ==> v[i].0@ != name@,
    ensures
        names_unique(v.push((name, e))),
        named_map(v.push((name, e))) == named_map(v).insert(name@, e@),
{
    let w = v.push((name, e));
    assert forall|k: Seq<char>| #[trigger] named_map(w).dom().contains(k) == named_map(v).insert(
        name@,
        e@,
    ).dom().contains(k) by {
        if exists|i: int| 0 <= i < v.len() && v[i].0@ == k {
            let i = choose|i: int| 0 <= i < v.len() && v[i].0@ == k;
            assert(w[i].0@ == k);
        }
        if k == name@ {
            assert(w[v.len() as int].0@ == k);
        }
        if exists|i: int| 0 <= i < w.len() && w[i].0@ == k {
            let i = choose|i: int| 0 <= i < w.len() && w[i].0@ == k;
            if i < v.len() {
                assert(v[i].0@ == k);
            }
        }
    }
    assert forall|k: Seq<char>| #[trigger] named_map(w).dom().contains(k) implies named_map(w)[k]
        == named_map(v).insert(name@, e@)[k] by {
        let i = choose|i: int| 0 <= i < w.len() && w[i].0@ == k;
        if k == name@ {
            assert(i == v.len());
        } else {
            assert(i < v.len());
            assert(v[i].0@ == k);
            let i2 = choose|i: int| 0 <= i < v.len() && v[i].0@ == k;
            assert(i2 == i);
        }
    }
    assert(named_map(w) =~= named_map(v).insert(name@, e@));
}

/// Two lists with the same names and the same value views, place by place, are
/// the same map, and have distinct names together.
pub proof fn lemma_same_views<V: View>(a: Seq<(String, V)>, b: Seq<(String, V)>)
    requires
        a.len() == b.len(),
        forall|i: int| 0 <= i < a.len() ==> #[trigger] a[i].0@ == b[i].0@ && a[i].1@ == b[i].1@,
        names_unique(a),
    ensures
        names_unique(b),
        named_map(b) == named_map(a),
{
    assert forall|i: int, j: int| 0 <= i < b.len() && 0 <= j < b.len() && i != j implies b[i].0@
        != b[j].0@ by {
        assert(a[i].0@ == b[i].0@);
        assert(a[j].0@ == b[j].0@);
    }
    assert forall|k: Seq<char>| #[trigger] named_map(b).dom().contains(k) == named_map(a).dom().contains(
        k,
    ) by {
        if exists|i: int| 0 <= i < a.len() && a[i].0@ == k {
            let i = choose|i: int| 0 <= i < a.len() && a[i].0@ == k;
            assert(b[i].0@ == k);
        }
        if exists|i: int| 0 <= i < b.len() && b[i].0@ == k {
            let i = choose|i: int| 0 <= i < b.len() && b[i].0@ == k;
            assert(a[i].0@ == b[i].0@);
        }
    }
    assert forall|k: Seq<char>| #[trigger] named_map(b).dom().contains(k) implies named_map(b)[k]
        == named_map(a)[k] by {
        let ib = choose|i: int| 0 <= i < b.len() && b[i].0@ == k;
        assert(a[ib].0@ == b[ib].0@);
        let ia = choose|i: int| 0 <= i < a.len() && a[i].0@ == k;
        assert(ia == ib);
        assert(a[ia].1@ == b[ia].1@);
    }
    assert(named_map(b) =~= named_map(a));
}

} // verus!
