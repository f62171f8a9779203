//! What it is for one text to stand before another.

use vstd::prelude::*;

use crate::order;

verus! {

/// Of two texts the one with the smaller character at the first difference stands before
/// the other, and a beginning stands before what it begins.
pub proof fn law_the_first_difference_decides(
    head: Seq<char>,
    x: char,
    y: char,
    a: Seq<char>,
    b: Seq<char>,
)
    ensures
        (x as int) < (y as int) ==> order::before(head + seq![x] + a, head + seq![y] + b)
            && !order::before(head + seq![y] + b, head + seq![x] + a),
        order::before(head, head + seq![x] + a),
        !order::before(head + seq![x] + a, head),
        !order::before(head, head),
    decreases head.len(),
{
    let p = head + seq![x] + a;
    let q = head + seq![y] + b;
    order::lemma_before_irreflexive(head);
    if head.len() == 0 {
        assert(p[0] == x);
        assert(q[0] == y);
    } else {
        let rest = head.drop_first();
        law_the_first_difference_decides(rest, x, y, a, b);
        assert(p.drop_first() =~= rest + seq![x] + a);
        assert(q.drop_first() =~= rest + seq![y] + b);
        assert(p[0] == head[0] && q[0] == head[0]);
    }
}

/// Sorted texts are the same texts, each as often as before, and none stands after one that
/// it stands before.
pub proof fn law_sorted_texts_are_the_same_in_order(keys: Seq<Seq<char>>)
    ensures
        order::sorted(keys).len() == keys.len(),
        forall|k: int| 0 <= k < keys.len() ==> order::sorted(keys).contains(#[trigger] keys[k]),
        forall|i: int|
            0 <= i < keys.len() ==> keys.contains(#[trigger] order::sorted(keys)[i]),
        forall|i: int, j: int|
            0 <= i < j < keys.len() ==> !order::before(
                #[trigger] order::sorted(keys)[j],
                #[trigger] order::sorted(keys)[i],
            ),
{
    let places = order::sorting(keys, keys.len());
    let all = order::sorted(keys);
    order::law_sorting_sorts(keys, keys.len());
    assert forall|k: int| 0 <= k < keys.len() implies all.contains(#[trigger] keys[k]) by {
        order::law_sorting_is_a_permutation(keys, keys.len(), k);
        let i = places.index_of(k);
        assert(all[i] == keys[k]);
    }
    assert forall|i: int, j: int| 0 <= i < j < keys.len() implies !order::before(
        #[trigger] all[j],
        #[trigger] all[i],
    ) by {
        assert(order::stands_before(keys, places[i], places[j]));
        order::lemma_before_irreflexive(all[i]);
        if order::before(all[j], all[i]) && order::before(all[i], all[j]) {
            order::lemma_before_transitive(all[i], all[j], all[i]);
        }
    }
}

} // verus!
