//! What the normal form of a path is, and when a path lies below another one.

use vstd::prelude::*;

use crate::paths::{self, DOT, SLASH};

verus! {

/// The path of some components below the root; nothing where there are none.
pub open spec fn descent(parts: Seq<Seq<u8>>) -> Seq<u8> {
    if parts.len() == 0 {
        Seq::empty()
    } else {
        paths::rooted(parts)
    }
}

/// The relative path of some components.
pub open spec fn relative(parts: Seq<Seq<u8>>) -> Seq<u8> {
    if parts.len() == 0 {
        Seq::empty()
    } else {
        paths::rooted(parts).skip(1)
    }
}

/// A path of names is its own normal form, one more name stands at its end, and a
/// relative path is read from the working directory.
pub proof fn law_the_normal_form_keeps_the_names(
    parts: Seq<Seq<u8>>,
    name: Seq<u8>,
    p: Seq<u8>,
    cwd: Seq<u8>,
    other: Seq<u8>,
)
    requires
        paths::all_names(parts),
        paths::is_name(name),
        p.len() == 0 || p[0] != SLASH,
        cwd.len() > 0 && cwd[0] == SLASH,
    ensures
        paths::canonical(paths::rooted(parts), cwd) == paths::rooted(parts),
        paths::canonical(descent(parts) + seq![SLASH] + name, cwd) == descent(parts) + seq![SLASH]
            + name,
        paths::canonical(p, cwd) == paths::canonical(cwd + seq![SLASH] + p, other),
{
    paths::lemma_names_resolve(parts);
    let longer = parts.push(name);
    assert forall|i: int| 0 <= i < longer.len() implies paths::is_name(#[trigger] longer[i]) by {
        if i < parts.len() {
            assert(longer[i] == parts[i]);
        }
    }
    paths::lemma_names_resolve(longer);
    assert(longer.drop_last() =~= parts);
    assert(paths::rooted(longer) =~= descent(parts) + seq![SLASH] + name);
}

/// The first component stands first.
proof fn lemma_first(x: Seq<u8>, rest: Seq<Seq<u8>>)
    ensures
        paths::rooted(seq![x] + rest) == seq![SLASH] + x + descent(rest),
    decreases rest.len(),
{
    let all = seq![x] + rest;
    if rest.len() == 0 {
        assert(all =~= seq![x]);
        assert(paths::rooted(all) =~= seq![SLASH] + x + descent(rest));
    } else {
        let fewer = rest.drop_last();
        lemma_first(x, fewer);
        assert(all.drop_last() =~= seq![x] + fewer);
        assert(all.last() == rest.last());
        if fewer.len() == 0 {
            assert(rest =~= seq![rest.last()]);
        }
        assert(paths::rooted(all) =~= seq![SLASH] + x + descent(rest));
    }
}

/// A component ends at the next separator.
proof fn lemma_first_len(x: Seq<u8>, tail: Seq<u8>)
    requires
        !x.contains(SLASH),
        tail.len() == 0 || tail[0] == SLASH,
    ensures
        paths::first_len(x + tail) == x.len(),
    decreases x.len(),
{
    let whole = x + tail;
    if x.len() == 0 {
        assert(whole =~= tail);
    } else {
        assert(x.contains(x[0]));
        assert(whole[0] == x[0]);
        assert forall|c: u8| x.skip(1).contains(c) implies x.contains(c) by {
            let i = x.skip(1).index_of(c);
            assert(x[i + 1] == c);
        }
        lemma_first_len(x.skip(1), tail);
        assert(whole.skip(1) =~= x.skip(1) + tail);
    }
}

/// In front of a name only the separator is skipped.
proof fn lemma_front(x: Seq<u8>, tail: Seq<u8>)
    requires
        paths::is_name(x),
        tail.len() == 0 || tail[0] == SLASH,
    ensures
        paths::skip_front(seq![SLASH] + x + tail) == x + tail,
{
    let whole = seq![SLASH] + x + tail;
    let q = x + tail;
    assert(whole.skip(1) =~= q);
    assert(whole[0] == SLASH);
    assert(x.contains(x[0]));
    assert(q[0] == x[0]);
    if q.len() == 1 && q[0] == DOT {
        assert(x =~= seq![DOT]);
    }
    if q.len() >= 2 && q[0] == DOT && q[1] == SLASH {
        if x.len() == 1 {
            assert(x =~= seq![DOT]);
        } else {
            assert(x.contains(x[1]));
        }
    }
    assert(paths::skip_front(q) == q);
}

/// Nothing is trimmed off a path of names.
proof fn lemma_untrimmed(parts: Seq<Seq<u8>>)
    requires
        paths::all_names(parts),
    ensures
        paths::trimmed(relative(parts)) == relative(parts),
{
    if parts.len() > 0 {
        let name = parts.last();
        let fewer = parts.drop_last();
        assert(paths::is_name(name));
        assert(name.contains(name.last()));
        let whole = paths::rooted(parts);
        assert(whole =~= descent(fewer) + seq![SLASH] + name);
        let p = relative(parts);
        assert(p.last() == name.last());
        if p.len() > 1 && p.last() == DOT && p[p.len() - 2] == SLASH {
            if name.len() == 1 {
                assert(name =~= seq![DOT]);
            } else {
                assert(p[p.len() - 2] == name[name.len() - 2]);
                assert(name.contains(name[name.len() - 2]));
            }
        }
    }
}

/// What lies below a folder is the rest of its path, and a path lies below a folder only
/// where it goes through each of its components.
pub proof fn law_what_lies_below_a_folder(
    folder: Seq<Seq<u8>>,
    rest: Seq<Seq<u8>>,
    x: Seq<u8>,
    y: Seq<u8>,
    more: Seq<Seq<u8>>,
)
    requires
        paths::all_names(folder),
        paths::all_names(rest),
        paths::all_names(more),
        paths::is_name(x),
        paths::is_name(y),
        x != y,
    ensures
        paths::stripped(paths::rooted(folder + rest), paths::rooted(folder)) == Some(
            relative(rest),
        ),
        paths::stripped(
            paths::rooted(folder + seq![x] + rest),
            paths::rooted(folder + seq![y] + more),
        ) is None,
        paths::stripped(paths::rooted(folder), paths::rooted(folder + seq![y] + more)) is None,
{
    lemma_below(folder, rest);
    lemma_stripped_descent(folder + rest, folder);
    assert(folder + seq![y] + more =~= folder + (seq![y] + more));
    assert(folder + seq![x] + rest =~= folder + (seq![x] + rest));
    lemma_beside(folder, seq![x] + rest, seq![y] + more);
    lemma_stripped_descent(folder + seq![x] + rest, folder + seq![y] + more);
    lemma_beside(folder, Seq::empty(), seq![y] + more);
    assert(folder + Seq::<Seq<u8>>::empty() =~= folder);
    lemma_stripped_descent(folder, folder + seq![y] + more);
}

/// The root and the empty path are stripped alike.
proof fn lemma_stripped_descent(p: Seq<Seq<u8>>, lead: Seq<Seq<u8>>)
    ensures
        paths::stripped(paths::rooted(p), paths::rooted(lead)) == paths::stripped(
            descent(p),
            descent(lead),
        ),
{
    let root = seq![SLASH];
    assert(root.skip(1) =~= Seq::<u8>::empty());
    assert(paths::skip_front(Seq::<u8>::empty()) =~= Seq::<u8>::empty());
    assert(paths::skip_front(root) == paths::skip_front(root.skip(1)));
    assert(paths::skip_front(root) =~= Seq::<u8>::empty());
    assert(paths::skip_front(paths::rooted(p)) == paths::skip_front(descent(p)));
    assert(paths::skip_front(paths::rooted(lead)) == paths::skip_front(descent(lead)));
}

/// One component is stripped at a time.
proof fn lemma_step(x: Seq<u8>, p: Seq<Seq<u8>>, y: Seq<u8>, lead: Seq<Seq<u8>>)
    requires
        paths::is_name(x),
        paths::is_name(y),
    ensures
        paths::stripped(descent(seq![x] + p), descent(seq![y] + lead)) == (if x == y {
            paths::stripped(descent(p), descent(lead))
        } else {
            None
        }),
{
    let a = seq![x] + p;
    let b = seq![y] + lead;
    lemma_first(x, p);
    lemma_first(y, lead);
    lemma_descent_starts(p);
    lemma_descent_starts(lead);
    lemma_front(x, descent(p));
    lemma_front(y, descent(lead));
    lemma_first_len(x, descent(p));
    lemma_first_len(y, descent(lead));
    let q = x + descent(p);
    let s = y + descent(lead);
    assert(paths::skip_front(descent(a)) == q);
    assert(paths::skip_front(descent(b)) == s);
    assert(q.take(x.len() as int) =~= x);
    assert(s.take(y.len() as int) =~= y);
    assert(q.skip(x.len() as int) =~= descent(p));
    assert(s.skip(y.len() as int) =~= descent(lead));
}

proof fn lemma_descent_starts(p: Seq<Seq<u8>>)
    ensures
        descent(p).len() == 0 || descent(p)[0] == SLASH,
{
    if p.len() > 0 {
        let rest = p.skip(1);
        lemma_first(p[0], rest);
        assert(seq![p[0]] + rest =~= p);
    }
}

proof fn lemma_below(folder: Seq<Seq<u8>>, rest: Seq<Seq<u8>>)
    requires
        paths::all_names(folder),
        paths::all_names(rest),
    ensures
        paths::stripped(descent(folder + rest), descent(folder)) == Some(relative(rest)),
    decreases folder.len(),
{
    if folder.len() == 0 {
        assert(folder + rest =~= rest);
        assert(paths::skip_front(Seq::<u8>::empty()) =~= Seq::<u8>::empty());
        lemma_untrimmed(rest);
        if rest.len() > 0 {
            let x = rest[0];
            let others = rest.skip(1);
            assert(paths::is_name(x));
            assert(seq![x] + others =~= rest);
            lemma_first(x, others);
            lemma_descent_starts(others);
            lemma_front(x, descent(others));
            assert(relative(rest) =~= x + descent(others));
            assert(paths::skip_front(descent(rest)) == relative(rest));
        } else {
            assert(paths::trimmed(Seq::<u8>::empty()) =~= Seq::<u8>::empty());
        }
    } else {
        let x = folder[0];
        let others = folder.skip(1);
        assert(paths::is_name(x));
        assert forall|i: int| 0 <= i < others.len() implies paths::is_name(#[trigger] others[i]) by {
            assert(paths::is_name(folder[i + 1]));
        }
        assert(seq![x] + others =~= folder);
        assert(seq![x] + (others + rest) =~= folder + rest);
        lemma_step(x, others + rest, x, others);
        lemma_below(others, rest);
    }
}

proof fn lemma_beside(folder: Seq<Seq<u8>>, p: Seq<Seq<u8>>, lead: Seq<Seq<u8>>)
    requires
        paths::all_names(folder),
        p.len() > 0 ==> paths::is_name(p[0]),
        lead.len() > 0,
        paths::is_name(lead[0]),
        p.len() > 0 ==> p[0] != lead[0],
    ensures
        paths::stripped(descent(folder + p), descent(folder + lead)) is None,
    decreases folder.len(),
{
    if folder.len() == 0 {
        assert(folder + p =~= p);
        assert(folder + lead =~= lead);
        let y = lead[0];
        let more = lead.skip(1);
        assert(seq![y] + more =~= lead);
        if p.len() > 0 {
            assert(seq![p[0]] + p.skip(1) =~= p);
            lemma_step(p[0], p.skip(1), y, more);
        } else {
            lemma_first(y, more);
            lemma_descent_starts(more);
            lemma_front(y, descent(more));
            assert(paths::skip_front(Seq::<u8>::empty()) =~= Seq::<u8>::empty());
        }
    } else {
        let x = folder[0];
        let others = folder.skip(1);
        assert(paths::is_name(x));
        assert forall|i: int| 0 <= i < others.len() implies paths::is_name(#[trigger] others[i]) by {
            assert(paths::is_name(folder[i + 1]));
        }
        assert(seq![x] + (others + p) =~= folder + p);
        assert(seq![x] + (others + lead) =~= folder + lead);
        lemma_step(x, others + p, x, others + lead);
        lemma_beside(others, p, lead);
    }
}

/// A path is its folder, a separator and its last component, which holds no separator.
pub proof fn law_the_last_component_ends_a_path(p: Seq<u8>)
    ensures
        paths::last_start(p) <= p.len(),
        !p.skip(paths::last_start(p) as int).contains(SLASH),
        paths::last_start(p) > 0 ==> p[paths::last_start(p) - 1] == SLASH,
    decreases p.len(),
{
    if p.len() == 0 || p.last() == SLASH {
        assert(p.skip(p.len() as int) =~= Seq::<u8>::empty());
    } else {
        let q = p.drop_last();
        law_the_last_component_ends_a_path(q);
        let n = paths::last_start(q) as int;
        assert(p.skip(n) =~= q.skip(n).push(p.last()));
        assert forall|i: int| 0 <= i < p.skip(n).len() implies p.skip(n)[i] != SLASH by {
            if i < q.skip(n).len() {
                assert(q.skip(n).contains(q.skip(n)[i]));
            }
        }
    }
}

/// The components of a path are what stands between its separators.
pub proof fn law_components_stand_between_separators(c: Seq<u8>, a: Seq<u8>, b: Seq<u8>)
    requires
        !c.contains(SLASH),
    ensures
        paths::components(c) == seq![c],
        paths::components(a + seq![SLASH] + b) == paths::components(a) + paths::components(b),
{
    lemma_one_component(c);
    lemma_two_sides(a, b);
}

proof fn lemma_one_component(c: Seq<u8>)
    requires
        !c.contains(SLASH),
    ensures
        paths::components(c) == seq![c],
    decreases c.len(),
{
    if c.len() == 0 {
        assert(c =~= Seq::<u8>::empty());
    } else {
        assert(c.contains(c.last()));
        let d = c.drop_last();
        assert forall|x: u8| d.contains(x) implies c.contains(x) by {
            let i = d.index_of(x);
            assert(c[i] == x);
        }
        lemma_one_component(d);
        assert(d.push(c.last()) =~= c);
        assert(paths::components(c) =~= seq![c]);
    }
}

proof fn lemma_some_component(p: Seq<u8>)
    ensures
        paths::components(p).len() > 0,
    decreases p.len(),
{
    if p.len() > 0 {
        lemma_some_component(p.drop_last());
    }
}

proof fn lemma_two_sides(a: Seq<u8>, b: Seq<u8>)
    ensures
        paths::components(a + seq![SLASH] + b) == paths::components(a) + paths::components(b),
    decreases b.len(),
{
    let whole = a + seq![SLASH] + b;
    lemma_some_component(b);
    if b.len() == 0 {
        assert(whole.drop_last() =~= a);
        assert(whole.last() == SLASH);
        assert(paths::components(b) =~= seq![Seq::<u8>::empty()]);
        assert(paths::components(whole) =~= paths::components(a) + paths::components(b));
    } else {
        let d = b.drop_last();
        lemma_two_sides(a, d);
        lemma_some_component(d);
        assert(whole.drop_last() =~= a + seq![SLASH] + d);
        assert(whole.last() == b.last());
        assert(paths::components(whole) =~= paths::components(a) + paths::components(b));
    }
}

/// The last name of a path is its file name, and another name takes its place.
pub proof fn law_file_names_are_last_and_can_be_replaced(
    folder: Seq<Seq<u8>>,
    name: Seq<u8>,
    other: Seq<u8>,
)
    requires
        paths::all_names(folder),
        paths::is_name(name),
    ensures
        paths::file_name_of(descent(folder) + seq![SLASH] + name) == Some(name),
        paths::with_name(descent(folder) + seq![SLASH] + name, other) == descent(folder)
            + seq![SLASH] + other,
{
    let p = descent(folder) + seq![SLASH] + name;
    assert(name.contains(name.last()));
    assert(p.last() == name.last());
    if p.last() == DOT && p[p.len() - 2] == SLASH {
        if name.len() == 1 {
            assert(name =~= seq![DOT]);
        } else {
            assert(p[p.len() - 2] == name[name.len() - 2]);
            assert(name.contains(name[name.len() - 2]));
        }
    }
    assert(paths::trimmed(p) == p);
    lemma_last_start(descent(folder) + seq![SLASH], name);
    let n = (descent(folder).len() + 1) as int;
    assert(p =~= (descent(folder) + seq![SLASH]) + name);
    assert(paths::last_start(p) == n);
    assert(p.skip(n) =~= name);
    let front = p.take(n);
    assert(front =~= descent(folder) + seq![SLASH]);
    if folder.len() == 0 {
        assert(front =~= seq![SLASH]);
        assert(front + other =~= descent(folder) + seq![SLASH] + other);
    } else {
        assert(front.drop_last() =~= descent(folder));
        lemma_rooted_untrimmed(folder);
        assert(paths::trimmed(front) == descent(folder));
    }
}

proof fn lemma_rooted_untrimmed(parts: Seq<Seq<u8>>)
    requires
        paths::all_names(parts),
        parts.len() > 0,
    ensures
        paths::trimmed(descent(parts)) == descent(parts),
        descent(parts).len() > 1,
        descent(parts).last() != SLASH,
{
    let name = parts.last();
    let p = descent(parts);
    assert(paths::is_name(name));
    assert(name.contains(name.last()));
    assert(p =~= descent(parts.drop_last()) + seq![SLASH] + name);
    assert(p.last() == name.last());
    if p.last() == DOT && p[p.len() - 2] == SLASH {
        if name.len() == 1 {
            assert(name =~= seq![DOT]);
        } else {
            assert(p[p.len() - 2] == name[name.len() - 2]);
            assert(name.contains(name[name.len() - 2]));
        }
    }
}

proof fn lemma_last_start(front: Seq<u8>, name: Seq<u8>)
    requires
        front.len() > 0,
        front.last() == SLASH,
        !name.contains(SLASH),
    ensures
        paths::last_start(front + name) == front.len(),
    decreases name.len(),
{
    let p = front + name;
    if name.len() == 0 {
        assert(p =~= front);
    } else {
        let d = name.drop_last();
        assert(name.contains(name.last()));
        assert forall|x: u8| d.contains(x) implies name.contains(x) by {
            let i = d.index_of(x);
            assert(name[i] == x);
        }
        lemma_last_start(front, d);
        assert(p.drop_last() =~= front + d);
        assert(p.last() == name.last());
    }
}

/// A path of names below the root is read as these names, and nothing is trimmed off.
pub proof fn lemma_rooted_front(parts: Seq<Seq<u8>>)
    requires
        paths::all_names(parts),
        parts.len() > 0,
    ensures
        paths::skip_front(paths::rooted(parts)) == relative(parts),
        paths::trimmed(relative(parts)) == relative(parts),
        paths::rooted(parts)[0] == SLASH,
        relative(parts).len() > 0,
        relative(parts)[0] != SLASH,
{
    let x = parts[0];
    let others = parts.skip(1);
    assert(paths::is_name(x));
    assert(seq![x] + others =~= parts);
    lemma_first(x, others);
    lemma_descent_starts(others);
    lemma_front(x, descent(others));
    assert(relative(parts) =~= x + descent(others));
    assert(x.contains(x[0]));
    lemma_untrimmed(parts);
}

/// A relative path of names is plain: its components are the names.
pub proof fn lemma_plain(parts: Seq<Seq<u8>>)
    requires
        paths::all_names(parts),
        parts.len() > 0,
    ensures
        paths::components(relative(parts)) == parts,
        paths::is_plain(relative(parts)),
    decreases parts.len(),
{
    let name = parts.last();
    let fewer = parts.drop_last();
    assert(paths::is_name(name));
    lemma_one_component(name);
    if fewer.len() == 0 {
        assert(parts =~= seq![name]);
        assert(relative(parts) =~= name);
    } else {
        lemma_plain(fewer);
        lemma_descent_starts(fewer);
        lemma_two_sides(relative(fewer), name);
        assert(paths::rooted(fewer).len() > 0);
        assert(relative(parts) =~= relative(fewer) + seq![SLASH] + name);
        assert(paths::components(relative(parts)) =~= parts);
    }
    assert forall|i: int| 0 <= i < parts.len() implies parts[i].len() > 0 && !paths::is_dot(
        #[trigger] parts[i],
    ) && !paths::is_dot_dot(parts[i]) by {
        assert(paths::is_name(parts[i]));
    }
}

} // verus!
