//! De-duplication of id lists, first occurrence kept.
use vstd::prelude::*;
use itertools::Itertools;

verus! {

/// The characters of each id.
pub open spec fn id_views(ids: Seq<String>) -> Seq<Seq<char>> {
    ids.map_values(|s: String| s@)
}

/// `s` without repeats, each element where it first occurs.
pub open spec fn dedup_first(s: Seq<Seq<char>>) -> Seq<Seq<char>>
    decreases s.len(),
{
    if s.len() == 0 {
        s
    } else {
        let d = dedup_first(s.drop_last());
        if d.contains(s.last()) {
            d
        } else {
            d.push(s.last())
        }
    }
}

/// Relies on itertools::Itertools::unique: items come out in their order,
/// each repeat of an earlier item (by equality of the strings) left out.
#[verifier::external_body]
fn unique_of(ids: &Vec<String>) -> (r: Vec<String>)
    ensures
        id_views(r@) == dedup_first(id_views(ids@)),
{
    ids.iter().cloned().unique().collect()
}

/// De-duplicating keeps every element and repeats none.
pub proof fn lemma_dedup_first(s: Seq<Seq<char>>)
    ensures
        dedup_first(s).no_duplicates(),
        forall|x: Seq<char>| dedup_first(s).contains(x) <==> s.contains(x),
    decreases s.len(),
{
    if s.len() > 0 {
        let t = s.drop_last();
        lemma_dedup_first(t);
        assert forall|x: Seq<char>| s.contains(x) <==> (t.contains(x) || x == s.last()) by {
            if s.contains(x) {
                let i = choose|i: int| 0 <= i < s.len() && s[i] == x;
                if i < s.len() - 1 {
                    assert(t[i] == x);
                }
            }
            if t.contains(x) {
                let i = choose|i: int| 0 <= i < t.len() && t[i] == x;
                assert(s[i] == x);
            }
            if x == s.last() {
                assert(s[s.len() - 1] == x);
            }
        }
        let d = dedup_first(t);
        if !d.contains(s.last()) {
            let e = d.push(s.last());
            assert forall|x: Seq<char>| e.contains(x) <==> (d.contains(x) || x == s.last()) by {
                if e.contains(x) {
                    let i = choose|i: int| 0 <= i < e.len() && e[i] == x;
                    if i < d.len() {
                        assert(d[i] == x);
                    }
                }
                if d.contains(x) {
                    let i = choose|i: int| 0 <= i < d.len() && d[i] == x;
                    assert(e[i] == x);
                }
                if x == s.last() {
                    assert(e[e.len() - 1] == x);
                }
            }
            assert forall|i: int, j: int| 0 <= i < e.len() && 0 <= j < e.len() && i != j implies e[i]
                != e[j] by {
                if i < d.len() && j < d.len() {
                } else if i < d.len() {
                    assert(d.contains(d[i]));
                } else if j < d.len() {
                    assert(d.contains(d[j]));
                }
            }
        }
    }
}

/// The ids of `ids` without repeats, in the order of their first occurrence.
pub fn unique_ids(ids: &Vec<String>) -> (r: Vec<String>)
    ensures
        id_views(r@) == dedup_first(id_views(ids@)),
        id_views(r@).no_duplicates(),
        forall|x: Seq<char>| id_views(r@).contains(x) <==> id_views(ids@).contains(x),
{
    let r = unique_of(ids);
    proof {
        lemma_dedup_first(id_views(ids@));
    }
    r
}

} // verus!
