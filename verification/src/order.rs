//! The order of texts, and stable sorting by a text.
//!
//! Texts are ordered by their characters, from the first one on; for UTF-8
//! that is the order of the bytes.

use vstd::prelude::*;

use crate::text;

pub mod laws;

verus! {

/// Whether `a` comes before `b`.
pub open spec fn before(a: Seq<char>, b: Seq<char>) -> bool
    decreases a.len(),
{
    if b.len() == 0 {
        false
    } else if a.len() == 0 {
        true
    } else if a[0] != b[0] {
        (a[0] as int) < (b[0] as int)
    } else {
        before(a.drop_first(), b.drop_first())
    }
}

/// No text comes before itself.
pub proof fn lemma_before_irreflexive(a: Seq<char>)
    ensures
        !before(a, a),
    decreases a.len(),
{
    if a.len() > 0 {
        lemma_before_irreflexive(a.drop_first());
    }
}

/// Of two different texts one comes before the other.
pub proof fn lemma_before_total(a: Seq<char>, b: Seq<char>)
    ensures
        before(a, b) || before(b, a) || a == b,
    decreases a.len(),
{
    if a.len() == 0 {
        if b.len() == 0 {
            assert(a =~= b);
        }
    } else if b.len() > 0 && a[0] == b[0] {
        lemma_before_total(a.drop_first(), b.drop_first());
        if a.drop_first() == b.drop_first() {
            assert(a =~= seq![a[0]] + a.drop_first());
            assert(b =~= seq![b[0]] + b.drop_first());
        }
    }
}

/// The order is transitive.
pub proof fn lemma_before_transitive(a: Seq<char>, b: Seq<char>, c: Seq<char>)
    requires
        before(a, b),
        before(b, c),
    ensures
        before(a, c),
    decreases a.len(),
{
    if a.len() > 0 && a[0] == b[0] && b[0] == c[0] {
        lemma_before_transitive(a.drop_first(), b.drop_first(), c.drop_first());
    }
}

/// Decides whether `a` comes before `b`.
pub fn precedes(a: &str, b: &str) -> (r: bool)
    ensures
        r == before(a@, b@),
{
    let x = text::chars_of(a);
    let y = text::chars_of(b);
    let mut i: usize = 0;
    proof {
        assert(a@.skip(0) =~= a@);
        assert(b@.skip(0) =~= b@);
    }
    loop
        invariant
            x@ == a@,
            y@ == b@,
            i <= x@.len(),
            i <= y@.len(),
            before(a@, b@) == before(a@.skip(i as int), b@.skip(i as int)),
        decreases x@.len() - i,
    {
        if i >= y.len() {
            return false;
        }
        if i >= x.len() {
            return true;
        }
        if x[i] != y[i] {
            return x[i] < y[i];
        }
        proof {
            assert(a@.skip(i as int).drop_first() =~= a@.skip(i + 1));
            assert(b@.skip(i as int).drop_first() =~= b@.skip(i + 1));
        }
        i = i + 1;
    }
}

/// Where the item at `x` goes in an order of other items: behind every item
/// that it does not come before.
pub open spec fn place(order: Seq<int>, keys: Seq<Seq<char>>, x: int) -> int
    decreases order.len(),
{
    if order.len() > 0 && before(keys[x], keys[order.last()]) {
        place(order.drop_last(), keys, x)
    } else {
        order.len() as int
    }
}

/// The order of the first `n` items, by key; items with one key keep their
/// order.
pub open spec fn sorting(keys: Seq<Seq<char>>, n: nat) -> Seq<int>
    decreases n,
{
    if n == 0 {
        Seq::empty()
    } else {
        let rest = sorting(keys, (n - 1) as nat);
        rest.insert(place(rest, keys, n - 1), n - 1)
    }
}

proof fn lemma_place_range(order: Seq<int>, keys: Seq<Seq<char>>, x: int)
    ensures
        0 <= place(order, keys, x) <= order.len(),
        forall|i: int|
            place(order, keys, x) <= i < order.len() ==> before(keys[x], keys[#[trigger] order[i]]),
        place(order, keys, x) > 0 ==> !before(
            keys[x],
            keys[order[place(order, keys, x) - 1]],
        ),
    decreases order.len(),
{
    if order.len() > 0 && before(keys[x], keys[order.last()]) {
        lemma_place_range(order.drop_last(), keys, x);
        let p = place(order, keys, x);
        assert forall|i: int| p <= i < order.len() implies before(
            keys[x],
            keys[#[trigger] order[i]],
        ) by {
            if i < order.len() - 1 {
                assert(order.drop_last()[i] == order[i]);
            }
        }
    }
}

/// Whether the item `a` stands before the item `b` in a stable sort.
pub open spec fn stands_before(keys: Seq<Seq<char>>, a: int, b: int) -> bool {
    before(keys[a], keys[b]) || (keys[a] == keys[b] && a < b)
}

/// The order holds each item once, sorted by key, and items with one key in
/// their own order.
pub proof fn law_sorting_sorts(keys: Seq<Seq<char>>, n: nat)
    requires
        n <= keys.len(),
    ensures
        sorting(keys, n).len() == n,
        forall|i: int| 0 <= i < n ==> 0 <= #[trigger] sorting(keys, n)[i] < n,
        forall|i: int, j: int|
            0 <= i < j < n ==> stands_before(
                keys,
                #[trigger] sorting(keys, n)[i],
                #[trigger] sorting(keys, n)[j],
            ),
    decreases n,
{
    if n > 0 {
        let m = (n - 1) as nat;
        law_sorting_sorts(keys, m);
        let rest = sorting(keys, m);
        let x = n - 1;
        lemma_place_range(rest, keys, x);
        let p = place(rest, keys, x);
        let all = sorting(keys, n);
        assert(all == rest.insert(p, x));
        assert forall|i: int, j: int| 0 <= i < j < n implies stands_before(
            keys,
            #[trigger] all[i],
            #[trigger] all[j],
        ) by {
            let a = all[i];
            let b = all[j];
            if j < p {
                assert(rest[i] == a && rest[j] == b);
            } else if i > p {
                assert(rest[i - 1] == a && rest[j - 1] == b);
            } else if i == p {
                assert(rest[j - 1] == b);
            } else if j == p {
                assert(rest[i] == a);
                let c = rest[p - 1];
                lemma_before_total(keys[c], keys[x]);
                if i < p - 1 {
                    assert(stands_before(keys, rest[i], rest[p - 1]));
                    if before(keys[a], keys[c]) && before(keys[c], keys[x]) {
                        lemma_before_transitive(keys[a], keys[c], keys[x]);
                    }
                }
            } else {
                assert(rest[i] == a && rest[j - 1] == b);
            }
        }
    }
}

/// No item occurs twice in the order, and every item occurs.
pub proof fn law_sorting_is_a_permutation(keys: Seq<Seq<char>>, n: nat, x: int)
    requires
        n <= keys.len(),
        0 <= x < n,
    ensures
        sorting(keys, n).contains(x),
        sorting(keys, n).no_duplicates(),
    decreases n,
{
    law_sorting_sorts(keys, n);
    let all = sorting(keys, n);
    assert forall|i: int, j: int| 0 <= i < all.len() && 0 <= j < all.len() && i != j implies all[i]
        != all[j] by {
        if i < j {
            lemma_before_irreflexive(keys[all[i]]);
            assert(stands_before(keys, all[i], all[j]));
        } else {
            lemma_before_irreflexive(keys[all[j]]);
            assert(stands_before(keys, all[j], all[i]));
        }
    }
    let m = (n - 1) as nat;
    law_sorting_sorts(keys, m);
    let rest = sorting(keys, m);
    lemma_place_range(rest, keys, n - 1);
    let p = place(rest, keys, n - 1);
    if x == n - 1 {
        assert(all[p] == x);
    } else {
        law_sorting_is_a_permutation(keys, m, x);
        let i = choose|i: int| 0 <= i < rest.len() && rest[i] == x;
        assert(all[if i < p {
            i
        } else {
            i + 1
        }] == x);
    }
}

/// The values of some positions.
pub open spec fn positions(v: Seq<usize>) -> Seq<int> {
    Seq::new(v.len(), |i: int| v[i] as int)
}

/// The order of some texts; equal texts keep their order.
pub fn sorted_positions(keys: &[String]) -> (r: Vec<usize>)
    ensures
        positions(r@) == sorting(text::texts(keys@), keys@.len()),
{
    let ghost all = text::texts(keys@);
    let mut order: Vec<usize> = Vec::new();
    let mut n: usize = 0;
    proof {
        assert(positions(order@) =~= Seq::<int>::empty());
    }
    while n < keys.len()
        invariant
            n <= keys@.len(),
            all == text::texts(keys@),
            positions(order@) == sorting(all, n as nat),
            order@.len() == n,
        decreases keys@.len() - n,
    {
        let ghost rest = sorting(all, n as nat);
        proof {
            law_sorting_sorts(all, n as nat);
            assert(rest.take(n as int) =~= rest);
        }
        let mut p: usize = order.len();
        loop
            invariant
                p <= order@.len(),
                order@.len() == n,
                n < keys@.len(),
                all == text::texts(keys@),
                rest == positions(order@),
                forall|i: int| 0 <= i < n ==> 0 <= #[trigger] rest[i] < n,
                place(rest, all, n as int) == place(rest.take(p as int), all, n as int),
            ensures
                p == place(rest, all, n as int),
            decreases p,
        {
            if p == 0 {
                break;
            }
            let other: usize = order[p - 1];
            proof {
                assert(rest[p - 1] == other as int);
                assert(rest.take(p as int).last() == rest[p - 1]);
                assert(rest.take(p as int).drop_last() =~= rest.take(p - 1));
            }
            if !precedes(&keys[n], &keys[other]) {
                break;
            }
            p = p - 1;
        }
        order.insert(p, n);
        proof {
            assert(positions(order@) =~= rest.insert(p as int, n as int));
        }
        n = n + 1;
    }
    order
}

/// Some texts in order.
pub open spec fn sorted(keys: Seq<Seq<char>>) -> Seq<Seq<char>> {
    Seq::new(keys.len(), |i: int| keys[sorting(keys, keys.len())[i]])
}

/// Some texts in order; equal texts keep their order.
pub fn sorted_texts(keys: &[String]) -> (r: Vec<String>)
    ensures
        text::texts(r@) == sorted(text::texts(keys@)),
{
    let order = sorted_positions(keys);
    let ghost all = text::texts(keys@);
    proof {
        law_sorting_sorts(all, keys@.len());
    }
    let mut out: Vec<String> = Vec::new();
    let mut i: usize = 0;
    while i < order.len()
        invariant
            i <= order@.len(),
            all == text::texts(keys@),
            order@.len() == keys@.len(),
            positions(order@) == sorting(all, keys@.len()),
            forall|k: int| 0 <= k < keys@.len() ==> 0 <= #[trigger] sorting(all, keys@.len())[k]
                < keys@.len(),
            out@.len() == i,
            forall|k: int| 0 <= k < i ==> (#[trigger] out@[k])@ == sorted(all)[k],
        decreases order@.len() - i,
    {
        proof {
            assert(positions(order@)[i as int] == order@[i as int]);
            assert(0 <= sorting(all, keys@.len())[i as int] < keys@.len());
        }
        out.push(keys[order[i]].clone());
        i = i + 1;
    }
    proof {
        assert(text::texts(out@) =~= sorted(all));
    }
    out
}

} // verus!
