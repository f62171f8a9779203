//! Unix paths as bytes: lexical normal forms and file names. Nothing here
//! looks at a file system.

use vstd::prelude::*;

pub mod laws;

verus! {

/// The separator of path components.
pub const SLASH: u8 = 47;

/// The dot of `.` and `..`.
pub const DOT: u8 = 46;

pub open spec fn is_dot(c: Seq<u8>) -> bool {
    c == seq![DOT]
}

pub open spec fn is_dot_dot(c: Seq<u8>) -> bool {
    c == seq![DOT, DOT]
}

/// The components so far after one more: empty ones and `.` do not count, and
/// `..` takes the last one back.
pub open spec fn with_part(done: Seq<Seq<u8>>, c: Seq<u8>) -> Seq<Seq<u8>> {
    if c.len() == 0 || is_dot(c) {
        done
    } else if is_dot_dot(c) {
        if done.len() > 0 {
            done.drop_last()
        } else {
            done
        }
    } else {
        done.push(c)
    }
}

/// The complete components of a path, resolved, and the open one at its end.
pub open spec fn walked(p: Seq<u8>) -> (Seq<Seq<u8>>, Seq<u8>)
    decreases p.len(),
{
    if p.len() == 0 {
        (Seq::empty(), Seq::empty())
    } else {
        let (done, open) = walked(p.drop_last());
        if p.last() == SLASH {
            (with_part(done, open), Seq::empty())
        } else {
            (done, open.push(p.last()))
        }
    }
}

/// The components of a path, with `.`, `..` and repeated separators resolved.
pub open spec fn resolved(p: Seq<u8>) -> Seq<Seq<u8>> {
    with_part(walked(p).0, walked(p).1)
}

/// The absolute path with some components.
pub open spec fn rooted(parts: Seq<Seq<u8>>) -> Seq<u8>
    decreases parts.len(),
{
    if parts.len() == 0 {
        seq![SLASH]
    } else if parts.len() == 1 {
        seq![SLASH] + parts[0]
    } else {
        rooted(parts.drop_last()) + seq![SLASH] + parts.last()
    }
}

/// A path made absolute against a directory.
pub open spec fn absolute(p: Seq<u8>, cwd: Seq<u8>) -> Seq<u8> {
    if p.len() > 0 && p[0] == SLASH {
        p
    } else {
        cwd + seq![SLASH] + p
    }
}

/// The absolute lexical normal form of a path.
pub open spec fn canonical(p: Seq<u8>, cwd: Seq<u8>) -> Seq<u8> {
    rooted(resolved(absolute(p, cwd)))
}

/// The bytes of some components.
pub open spec fn part_values(v: Seq<Vec<u8>>) -> Seq<Seq<u8>> {
    Seq::new(v.len(), |i: int| v[i]@)
}

fn add_part(done: &mut Vec<Vec<u8>>, c: Vec<u8>)
    ensures
        part_values(final(done)@) == with_part(part_values(old(done)@), c@),
{
    if c.len() == 0 {
        return;
    }
    if c.len() == 1 && c[0] == DOT {
        assert(c@ =~= seq![DOT]);
        return;
    }
    if c.len() == 2 && c[0] == DOT && c[1] == DOT {
        assert(c@ =~= seq![DOT, DOT]);
        if done.len() > 0 {
            let _ = done.pop();
            assert(part_values(done@) =~= part_values(old(done)@).drop_last());
        }
        return;
    }
    proof {
        assert(seq![DOT].len() == 1 && seq![DOT, DOT].len() == 2);
        assert(seq![DOT][0] == DOT && seq![DOT, DOT][0] == DOT && seq![DOT, DOT][1] == DOT);
    }
    done.push(c);
    assert(part_values(done@) =~= part_values(old(done)@).push(c@));
}

/// The absolute lexical normal form of a path: `.`, `..`, repeated and
/// trailing separators are resolved without a look at any file.
pub fn canonical_path(path: &[u8], cwd: &[u8]) -> (r: Vec<u8>)
    ensures
        r@ == canonical(path@, cwd@),
{
    let mut whole: Vec<u8> = Vec::new();
    if !(path.len() > 0 && path[0] == SLASH) {
        whole.extend_from_slice(cwd);
        whole.push(SLASH);
    }
    whole.extend_from_slice(path);
    proof {
        assert(whole@ =~= absolute(path@, cwd@));
    }
    let ghost all = whole@;
    let mut done: Vec<Vec<u8>> = Vec::new();
    let mut open: Vec<u8> = Vec::new();
    let mut i: usize = 0;
    proof {
        assert(part_values(done@) =~= Seq::<Seq<u8>>::empty());
        assert(open@ =~= Seq::<u8>::empty());
    }
    while i < whole.len()
        invariant
            i <= whole@.len(),
            all == whole@,
            walked(all.take(i as int)) == (part_values(done@), open@),
        decreases whole@.len() - i,
    {
        proof {
            assert(all.take(i + 1).drop_last() =~= all.take(i as int));
            assert(all.take(i + 1).last() == all[i as int]);
        }
        if whole[i] == SLASH {
            add_part(&mut done, open);
            open = Vec::new();
            assert(open@ =~= Seq::<u8>::empty());
        } else {
            open.push(whole[i]);
        }
        i = i + 1;
    }
    proof {
        assert(all.take(i as int) =~= all);
    }
    add_part(&mut done, open);
    let ghost parts = part_values(done@);
    let mut out: Vec<u8> = Vec::new();
    if done.len() == 0 {
        out.push(SLASH);
        assert(out@ =~= rooted(parts));
        return out;
    }
    let mut k: usize = 0;
    while k < done.len()
        invariant
            k <= done@.len(),
            done@.len() > 0,
            parts == part_values(done@),
            k == 0 ==> out@ == Seq::<u8>::empty(),
            k > 0 ==> out@ == rooted(parts.take(k as int)),
        decreases done@.len() - k,
    {
        proof {
            assert(parts.take(k + 1).drop_last() =~= parts.take(k as int));
            assert(parts.take(k + 1).last() == done@[k as int]@);
            assert(parts.take(k + 1)[k as int] == done@[k as int]@);
        }
        out.push(SLASH);
        out.extend_from_slice(done[k].as_slice());
        k = k + 1;
        proof {
            assert(out@ =~= rooted(parts.take(k as int)));
        }
    }
    proof {
        assert(parts.take(k as int) =~= parts);
    }
    out
}

// ------------------------------------------------------------------- laws
/// A component of a normal form: a proper name.
pub open spec fn is_name(c: Seq<u8>) -> bool {
    c.len() > 0 && !is_dot(c) && !is_dot_dot(c) && !c.contains(SLASH)
}

/// Whether all components are proper names.
pub open spec fn all_names(parts: Seq<Seq<u8>>) -> bool {
    forall|i: int| 0 <= i < parts.len() ==> is_name(#[trigger] parts[i])
}

proof fn lemma_walked_names(p: Seq<u8>)
    ensures
        all_names(walked(p).0),
        !walked(p).1.contains(SLASH),
    decreases p.len(),
{
    if p.len() > 0 {
        lemma_walked_names(p.drop_last());
        let (done, open) = walked(p.drop_last());
        if p.last() == SLASH {
            lemma_with_part_names(done, open);
        } else {
            let longer = open.push(p.last());
            assert forall|i: int| 0 <= i < longer.len() implies longer[i] != SLASH by {
                if i < open.len() {
                    assert(open.contains(open[i]));
                }
            }
        }
    }
}

proof fn lemma_with_part_names(done: Seq<Seq<u8>>, c: Seq<u8>)
    requires
        all_names(done),
        !c.contains(SLASH),
    ensures
        all_names(with_part(done, c)),
{
    let r = with_part(done, c);
    assert forall|i: int| 0 <= i < r.len() implies is_name(#[trigger] r[i]) by {
        if i < done.len() {
            assert(r[i] == done[i]);
        }
    }
}

/// The components of a path are proper names: no `.`, no `..`, none empty.
pub proof fn law_resolved_parts_are_names(p: Seq<u8>)
    ensures
        all_names(resolved(p)),
{
    lemma_walked_names(p);
    lemma_with_part_names(walked(p).0, walked(p).1);
}

proof fn lemma_walk_name(p: Seq<u8>, c: Seq<u8>)
    requires
        walked(p).1.len() == 0,
        !c.contains(SLASH),
    ensures
        walked(p + c) == (walked(p).0, c),
    decreases c.len(),
{
    if c.len() == 0 {
        assert(p + c =~= p);
        assert(walked(p).1 =~= c);
    } else {
        let rest = c.drop_last();
        assert(c.contains(c.last()));
        assert forall|x: u8| rest.contains(x) implies c.contains(x) by {
            let i = choose|i: int| 0 <= i < rest.len() && rest[i] == x;
            assert(c[i] == x);
        }
        lemma_walk_name(p, rest);
        assert((p + c).drop_last() =~= p + rest);
        assert((p + c).last() == c.last());
        assert(rest.push(c.last()) =~= c);
    }
}

proof fn lemma_walk_rooted(parts: Seq<Seq<u8>>)
    requires
        all_names(parts),
        parts.len() > 0,
    ensures
        walked(rooted(parts)) == (parts.drop_last(), parts.last()),
    decreases parts.len(),
{
    let c = parts.last();
    assert(is_name(c));
    if parts.len() == 1 {
        let head = seq![SLASH];
        assert(head.drop_last() =~= Seq::<u8>::empty());
        reveal_with_fuel(walked, 2);
        assert(walked(head).1 =~= Seq::<u8>::empty());
        assert(walked(head).0 =~= parts.drop_last());
        lemma_walk_name(head, c);
        assert(rooted(parts) == head + c);
    } else {
        let rest = parts.drop_last();
        assert forall|i: int| 0 <= i < rest.len() implies is_name(#[trigger] rest[i]) by {
            assert(rest[i] == parts[i]);
        }
        lemma_walk_rooted(rest);
        let head = rooted(rest) + seq![SLASH];
        assert(head.drop_last() =~= rooted(rest));
        assert(head.last() == SLASH);
        assert(is_name(rest.last()));
        assert(walked(head) == (with_part(rest.drop_last(), rest.last()), Seq::<u8>::empty()));
        assert(with_part(rest.drop_last(), rest.last()) =~= rest);
        lemma_walk_name(head, c);
    }
}

/// The normal form of a normal form is itself, against any directory, so every
/// reader that normalizes once more still agrees.
pub proof fn law_canonical_is_idempotent(p: Seq<u8>, cwd: Seq<u8>, other: Seq<u8>)
    ensures
        canonical(p, cwd).len() > 0 && canonical(p, cwd)[0] == SLASH,
        canonical(canonical(p, cwd), other) == canonical(p, cwd),
{
    let parts = resolved(absolute(p, cwd));
    law_resolved_parts_are_names(absolute(p, cwd));
    lemma_rooted_starts(parts);
    let c = rooted(parts);
    if parts.len() == 0 {
        assert(c.drop_last() =~= Seq::<u8>::empty());
        reveal_with_fuel(walked, 2);
        assert(resolved(c) =~= parts);
    } else {
        lemma_walk_rooted(parts);
        assert(is_name(parts.last()));
        assert(with_part(parts.drop_last(), parts.last()) =~= parts);
    }
}

/// The components of a path of names are these names.
pub proof fn lemma_names_resolve(parts: Seq<Seq<u8>>)
    requires
        all_names(parts),
    ensures
        resolved(rooted(parts)) == parts,
        rooted(parts).len() > 0 && rooted(parts)[0] == SLASH,
{
    lemma_rooted_starts(parts);
    let c = rooted(parts);
    if parts.len() == 0 {
        assert(c.drop_last() =~= Seq::<u8>::empty());
        reveal_with_fuel(walked, 2);
        assert(resolved(c) =~= parts);
    } else {
        lemma_walk_rooted(parts);
        assert(is_name(parts.last()));
        assert(resolved(c) =~= parts);
    }
}

proof fn lemma_rooted_starts(parts: Seq<Seq<u8>>)
    ensures
        rooted(parts).len() > 0,
        rooted(parts)[0] == SLASH,
    decreases parts.len(),
{
    if parts.len() > 1 {
        lemma_rooted_starts(parts.drop_last());
    }
}

/// A trailing separator does not change the normal form.
pub proof fn law_trailing_slash_is_ignored(p: Seq<u8>, cwd: Seq<u8>)
    requires
        p.len() > 0,
    ensures
        canonical(p.push(SLASH), cwd) == canonical(p, cwd),
{
    let a = absolute(p, cwd);
    assert(absolute(p.push(SLASH), cwd) =~= a.push(SLASH));
    assert(a.push(SLASH).drop_last() =~= a);
    assert(a.push(SLASH).last() == SLASH);
}

/// What follows does not see how the components before it were spelled.
proof fn lemma_walk_on(a: Seq<u8>, b: Seq<u8>, tail: Seq<u8>)
    requires
        walked(a) == walked(b),
    ensures
        walked(a + tail) == walked(b + tail),
    decreases tail.len(),
{
    if tail.len() == 0 {
        assert(a + tail =~= a);
        assert(b + tail =~= b);
    } else {
        lemma_walk_on(a, b, tail.drop_last());
        assert((a + tail).drop_last() =~= a + tail.drop_last());
        assert((b + tail).drop_last() =~= b + tail.drop_last());
    }
}

/// One more component between separators.
proof fn lemma_walk_component(head: Seq<u8>, c: Seq<u8>)
    requires
        walked(head).1.len() == 0,
        !c.contains(SLASH),
    ensures
        walked(head + c + seq![SLASH]) == (with_part(walked(head).0, c), Seq::<u8>::empty()),
{
    lemma_walk_name(head, c);
    let whole = head + c + seq![SLASH];
    assert(whole.drop_last() =~= head + c);
    assert(whole.last() == SLASH);
}

/// Paths that differ between two separators have one normal form, where the
/// components in that place come to the same.
proof fn lemma_spelled_alike(head: Seq<u8>, mid: Seq<u8>, tail: Seq<u8>, cwd: Seq<u8>)
    requires
        walked(absolute(head + seq![SLASH], cwd) + mid) == walked(
            absolute(head + seq![SLASH], cwd),
        ),
    ensures
        canonical(head + seq![SLASH] + mid + tail, cwd) == canonical(
            head + seq![SLASH] + tail,
            cwd,
        ),
{
    let base = absolute(head + seq![SLASH], cwd);
    lemma_walk_on(base + mid, base, tail);
    assert(absolute(head + seq![SLASH] + mid + tail, cwd) =~= base + mid + tail);
    assert(absolute(head + seq![SLASH] + tail, cwd) =~= base + tail);
}

/// Spellings of one path have one normal form: a repeated separator, a `.`, and
/// a name that `..` takes back again may stand at any separator.
pub proof fn law_spellings_have_one_normal_form(
    head: Seq<u8>,
    name: Seq<u8>,
    tail: Seq<u8>,
    cwd: Seq<u8>,
)
    requires
        is_name(name),
    ensures
        canonical(head + seq![SLASH] + seq![SLASH] + tail, cwd) == canonical(
            head + seq![SLASH] + tail,
            cwd,
        ),
        canonical(head + seq![SLASH] + seq![DOT, SLASH] + tail, cwd) == canonical(
            head + seq![SLASH] + tail,
            cwd,
        ),
        canonical(
            head + seq![SLASH] + (name + seq![SLASH, DOT, DOT, SLASH]) + tail,
            cwd,
        ) == canonical(head + seq![SLASH] + tail, cwd),
{
    let base = absolute(head + seq![SLASH], cwd);
    assert(base.last() == SLASH);
    let done = walked(base).0;
    assert(walked(base).1 =~= Seq::<u8>::empty());
    let none = Seq::<u8>::empty();
    lemma_walk_component(base, none);
    assert(base + none + seq![SLASH] =~= base + seq![SLASH]);
    lemma_spelled_alike(head, seq![SLASH], tail, cwd);
    let dot = seq![DOT];
    lemma_walk_component(base, dot);
    assert(base + dot + seq![SLASH] =~= base + seq![DOT, SLASH]);
    lemma_spelled_alike(head, seq![DOT, SLASH], tail, cwd);
    let up = seq![DOT, DOT];
    lemma_walk_component(base, name);
    lemma_walk_component(base + name + seq![SLASH], up);
    assert(base + name + seq![SLASH] + up + seq![SLASH] =~= base + (name + seq![
        SLASH,
        DOT,
        DOT,
        SLASH,
    ]));
    assert(up.len() == 2 && dot.len() == 1);
    assert(done.push(name).drop_last() =~= done);
    lemma_spelled_alike(head, name + seq![SLASH, DOT, DOT, SLASH], tail, cwd);
}

/// A `..` above the root stays at the root.
pub proof fn law_root_has_no_parent(tail: Seq<u8>, cwd: Seq<u8>)
    ensures
        canonical(seq![SLASH, DOT, DOT, SLASH] + tail, cwd) == canonical(seq![SLASH] + tail, cwd),
{
    let root = seq![SLASH];
    let up = seq![DOT, DOT];
    assert(root.drop_last() =~= Seq::<u8>::empty());
    reveal_with_fuel(walked, 2);
    assert(walked(root).0 =~= Seq::<Seq<u8>>::empty());
    assert(walked(root).1 =~= Seq::<u8>::empty());
    lemma_walk_component(root, up);
    assert(up.len() == 2);
    assert(root + up + seq![SLASH] =~= seq![SLASH, DOT, DOT, SLASH]);
    lemma_walk_on(seq![SLASH, DOT, DOT, SLASH], root, tail);
}

// -------------------------------------------------------------- file names
/// A path without separators and `.` components at its end. The root stays,
/// and so does a lone `.`.
pub open spec fn trimmed(p: Seq<u8>) -> Seq<u8>
    decreases p.len(),
{
    if p.len() <= 1 {
        p
    } else if p.last() == SLASH {
        trimmed(p.drop_last())
    } else if p.last() == DOT && p[p.len() - 2] == SLASH {
        trimmed(p.drop_last())
    } else {
        p
    }
}

/// Where the last component of a path starts.
pub open spec fn last_start(p: Seq<u8>) -> nat
    decreases p.len(),
{
    if p.len() == 0 || p.last() == SLASH {
        p.len()
    } else {
        last_start(p.drop_last())
    }
}

/// The file name of a path: its last component, if that is a proper name.
pub open spec fn file_name_of(p: Seq<u8>) -> Option<Seq<u8>> {
    let q = trimmed(p);
    let c = q.skip(last_start(q) as int);
    if c.len() == 0 || is_dot(c) || is_dot_dot(c) {
        None
    } else {
        Some(c)
    }
}

/// A path with a further component.
pub open spec fn pushed(p: Seq<u8>, name: Seq<u8>) -> Seq<u8> {
    if p.len() == 0 || p.last() == SLASH {
        p + name
    } else {
        p + seq![SLASH] + name
    }
}

/// A path with its file name replaced, or with a name added where it has none.
pub open spec fn with_name(p: Seq<u8>, name: Seq<u8>) -> Seq<u8> {
    let q = trimmed(p);
    match file_name_of(p) {
        Some(_) => pushed(trimmed(q.take(last_start(q) as int)), name),
        None => pushed(p, name),
    }
}

fn trim_len(p: &[u8], len: usize) -> (n: usize)
    requires
        len <= p@.len(),
    ensures
        n <= len,
        p@.take(n as int) == trimmed(p@.take(len as int)),
{
    let mut n: usize = len;
    while n > 1 && (p[n - 1] == SLASH || (p[n - 1] == DOT && p[n - 2] == SLASH))
        invariant
            n <= len <= p@.len(),
            trimmed(p@.take(len as int)) == trimmed(p@.take(n as int)),
        decreases n,
    {
        proof {
            let q = p@.take(n as int);
            assert(q.drop_last() =~= p@.take(n - 1));
            assert(q.last() == p@[n - 1]);
            assert(q[n - 2] == p@[n - 2]);
        }
        n = n - 1;
    }
    proof {
        let q = p@.take(n as int);
        if n > 1 {
            assert(q.last() == p@[n - 1]);
            assert(q[n - 2] == p@[n - 2]);
        }
    }
    n
}

pub fn start_of_last(p: &[u8], len: usize) -> (s: usize)
    requires
        len <= p@.len(),
    ensures
        s <= len,
        s == last_start(p@.take(len as int)),
{
    let mut s: usize = len;
    while s > 0 && p[s - 1] != SLASH
        invariant
            s <= len <= p@.len(),
            last_start(p@.take(len as int)) == last_start(p@.take(s as int)),
        decreases s,
    {
        proof {
            let q = p@.take(s as int);
            assert(q.drop_last() =~= p@.take(s - 1));
            assert(q.last() == p@[s - 1]);
        }
        s = s - 1;
    }
    proof {
        let q = p@.take(s as int);
        if s > 0 {
            assert(q.last() == p@[s - 1]);
        }
    }
    s
}

/// The file name of a path.
pub fn file_name(path: &[u8]) -> (r: Option<Vec<u8>>)
    ensures
        match r {
            Some(v) => file_name_of(path@) == Some(v@),
            None => file_name_of(path@) is None,
        },
{
    let n: usize = trim_len(path, path.len());
    let s: usize = start_of_last(path, n);
    let c = vstd::slice::slice_subrange(path, s, n);
    proof {
        assert(path@.take(path@.len() as int) =~= path@);
        assert(c@ =~= trimmed(path@).skip(s as int));
    }
    if c.len() == 0 {
        return None;
    }
    if c.len() == 1 && c[0] == DOT {
        assert(c@ =~= seq![DOT]);
        return None;
    }
    if c.len() == 2 && c[0] == DOT && c[1] == DOT {
        assert(c@ =~= seq![DOT, DOT]);
        return None;
    }
    proof {
        assert(seq![DOT].len() == 1 && seq![DOT, DOT].len() == 2);
        assert(seq![DOT][0] == DOT && seq![DOT, DOT][0] == DOT && seq![DOT, DOT][1] == DOT);
    }
    Some(vstd::slice::slice_to_vec(c))
}

/// A path with its file name replaced, or with a name added where it has none.
pub fn with_file_name(path: &[u8], name: &[u8]) -> (r: Vec<u8>)
    ensures
        r@ == with_name(path@, name@),
{
    let base: usize = match file_name(path) {
        Some(_) => {
            let n: usize = trim_len(path, path.len());
            let s: usize = start_of_last(path, n);
            proof {
                assert(path@.take(path@.len() as int) =~= path@);
                assert(trimmed(path@).take(s as int) =~= path@.take(s as int));
            }
            trim_len(path, s)
        },
        None => {
            assert(path@.take(path@.len() as int) =~= path@);
            path.len()
        },
    };
    let mut out = vstd::slice::slice_to_vec(vstd::slice::slice_subrange(path, 0, base));
    let ghost p = out@;
    proof {
        assert(p =~= path@.take(base as int));
    }
    if out.len() > 0 && out[out.len() - 1] != SLASH {
        out.push(SLASH);
    }
    out.extend_from_slice(name);
    proof {
        assert(out@ =~= pushed(p, name@));
    }
    out
}

// --------------------------------------------------------------- components
/// What stands between the separators of a path, empty components included.
pub open spec fn components(p: Seq<u8>) -> Seq<Seq<u8>>
    decreases p.len(),
{
    if p.len() == 0 {
        seq![Seq::empty()]
    } else {
        let before = components(p.drop_last());
        if p.last() == SLASH {
            before.push(Seq::empty())
        } else {
            before.drop_last().push(before.last().push(p.last()))
        }
    }
}

/// What stands between the separators of a path.
pub fn components_of(p: &[u8]) -> (r: Vec<Vec<u8>>)
    ensures
        part_values(r@) == components(p@),
        r@.len() > 0,
{
    let mut done: Vec<Vec<u8>> = Vec::new();
    let mut open: Vec<u8> = Vec::new();
    let mut i: usize = 0;
    proof {
        assert(p@.take(0) =~= Seq::<u8>::empty());
        assert(part_values(done@).push(open@) =~= seq![Seq::<u8>::empty()]);
    }
    while i < p.len()
        invariant
            i <= p@.len(),
            part_values(done@).push(open@) == components(p@.take(i as int)),
        decreases p@.len() - i,
    {
        let c: u8 = p[i];
        let ghost before = components(p@.take(i as int));
        proof {
            assert(p@.take(i + 1).drop_last() =~= p@.take(i as int));
            assert(p@.take(i + 1).last() == c);
            assert(before.last() == open@);
            assert(before.drop_last() =~= part_values(done@));
        }
        if c == SLASH {
            let ghost old_done = part_values(done@);
            done.push(open);
            open = Vec::new();
            proof {
                assert(part_values(done@) =~= before);
                assert(open@ =~= Seq::<u8>::empty());
            }
        } else {
            open.push(c);
        }
        i = i + 1;
    }
    let ghost last = open@;
    let ghost head = part_values(done@);
    done.push(open);
    proof {
        assert(p@.take(i as int) =~= p@);
        assert(part_values(done@) =~= head.push(last));
    }
    done
}

/// Whether a component of a path is `..`.
pub open spec fn climbs(p: Seq<u8>) -> bool {
    exists|i: int| 0 <= i < components(p).len() && is_dot_dot(#[trigger] components(p)[i])
}

/// Whether every component of a path is a proper name.
pub open spec fn is_plain(p: Seq<u8>) -> bool {
    forall|i: int|
        0 <= i < components(p).len() ==> components(p)[i].len() > 0 && !is_dot(
            #[trigger] components(p)[i],
        ) && !is_dot_dot(components(p)[i])
}

fn is_dots(c: &[u8], n: usize) -> (r: bool)
    requires
        n == 1 || n == 2,
    ensures
        r == (if n == 1 {
            is_dot(c@)
        } else {
            is_dot_dot(c@)
        }),
{
    proof {
        assert(seq![DOT].len() == 1 && seq![DOT, DOT].len() == 2);
        assert(seq![DOT][0] == DOT && seq![DOT, DOT][0] == DOT && seq![DOT, DOT][1] == DOT);
    }
    if c.len() != n || c[0] != DOT {
        return false;
    }
    if n == 2 {
        let r = c[1] == DOT;
        proof {
            if r {
                assert(c@ =~= seq![DOT, DOT]);
            }
        }
        return r;
    }
    assert(c@ =~= seq![DOT]);
    true
}

/// Whether a component of a path is `..`.
pub fn has_parent_component(p: &[u8]) -> (r: bool)
    ensures
        r == climbs(p@),
{
    let parts = components_of(p);
    let mut i: usize = 0;
    while i < parts.len()
        invariant
            i <= parts@.len(),
            part_values(parts@) == components(p@),
            forall|k: int| 0 <= k < i ==> !is_dot_dot(#[trigger] components(p@)[k]),
        decreases parts@.len() - i,
    {
        assert(components(p@)[i as int] == parts@[i as int]@);
        if is_dots(parts[i].as_slice(), 2) {
            return true;
        }
        i = i + 1;
    }
    assert(components(p@).len() == parts@.len());
    false
}

/// Whether every component of a path is a proper name.
pub fn plain(p: &[u8]) -> (r: bool)
    ensures
        r == is_plain(p@),
{
    let parts = components_of(p);
    let mut i: usize = 0;
    while i < parts.len()
        invariant
            i <= parts@.len(),
            part_values(parts@) == components(p@),
            forall|k: int|
                0 <= k < i ==> components(p@)[k].len() > 0 && !is_dot(#[trigger] components(p@)[k])
                    && !is_dot_dot(components(p@)[k]),
        decreases parts@.len() - i,
    {
        assert(components(p@)[i as int] == parts@[i as int]@);
        let c = parts[i].as_slice();
        if c.len() == 0 || is_dots(c, 1) || is_dots(c, 2) {
            assert(!(components(p@)[i as int].len() > 0 && !is_dot(components(p@)[i as int])
                && !is_dot_dot(components(p@)[i as int])));
            return false;
        }
        i = i + 1;
    }
    assert(components(p@).len() == parts@.len());
    true
}

// ------------------------------------------------------------------ prefixes
/// A path without separators and `.` components at its start.
pub open spec fn skip_front(p: Seq<u8>) -> Seq<u8>
    decreases p.len(),
{
    if p.len() > 0 && p[0] == SLASH {
        skip_front(p.skip(1))
    } else if p.len() == 1 && p[0] == DOT {
        Seq::empty()
    } else if p.len() >= 2 && p[0] == DOT && p[1] == SLASH {
        skip_front(p.skip(2))
    } else {
        p
    }
}

/// The length of the first component.
pub open spec fn first_len(p: Seq<u8>) -> nat
    decreases p.len(),
{
    if p.len() == 0 || p[0] == SLASH {
        0
    } else {
        1 + first_len(p.skip(1))
    }
}

pub proof fn lemma_skip_front(p: Seq<u8>)
    ensures
        skip_front(p).len() <= p.len(),
        skip_front(p).len() > 0 ==> skip_front(p)[0] != SLASH,
        skip_front(p) == p.skip(p.len() - skip_front(p).len()),
    decreases p.len(),
{
    if p.len() > 0 && p[0] == SLASH {
        lemma_skip_front(p.skip(1));
        let n = skip_front(p).len();
        assert(p.skip(1).skip(p.len() - 1 - n) =~= p.skip(p.len() - n));
    } else if p.len() == 1 && p[0] == DOT {
        assert(p.skip(1) =~= Seq::<u8>::empty());
    } else if p.len() >= 2 && p[0] == DOT && p[1] == SLASH {
        lemma_skip_front(p.skip(2));
        let n = skip_front(p).len();
        assert(p.skip(2).skip(p.len() - 2 - n) =~= p.skip(p.len() - n));
    } else {
        assert(p.skip(0) =~= p);
    }
}

pub proof fn lemma_first_len(p: Seq<u8>)
    ensures
        first_len(p) <= p.len(),
        p.len() > 0 && p[0] != SLASH ==> first_len(p) > 0,
    decreases p.len(),
{
    if p.len() > 0 && p[0] != SLASH {
        lemma_first_len(p.skip(1));
    }
}

/// What remains of a path after a leading path, component by component;
/// `None` where it does not start with it.
pub open spec fn stripped(p: Seq<u8>, lead: Seq<u8>) -> Option<Seq<u8>>
    decreases lead.len(),
{
    let q = skip_front(p);
    let s = skip_front(lead);
    if s.len() == 0 {
        Some(trimmed(q))
    } else if q.len() == 0 {
        None
    } else if q.take(first_len(q) as int) == s.take(first_len(s) as int) {
        proof {
            lemma_skip_front(lead);
            lemma_first_len(s);
        }
        stripped(q.skip(first_len(q) as int), s.skip(first_len(s) as int))
    } else {
        None
    }
}

fn front(p: &[u8], from: usize) -> (i: usize)
    requires
        from <= p@.len(),
    ensures
        from <= i <= p@.len(),
        p@.skip(i as int) == skip_front(p@.skip(from as int)),
{
    let mut i: usize = from;
    loop
        invariant
            from <= i <= p@.len(),
            skip_front(p@.skip(from as int)) == skip_front(p@.skip(i as int)),
        ensures
            from <= i <= p@.len(),
            p@.skip(i as int) == skip_front(p@.skip(from as int)),
        decreases p@.len() - i,
    {
        let ghost q = p@.skip(i as int);
        if i < p.len() && p[i] == SLASH {
            proof {
                assert(q[0] == SLASH);
                assert(q.skip(1) =~= p@.skip(i + 1));
            }
            i = i + 1;
        } else if p.len() - i == 1 && p[i] == DOT {
            proof {
                assert(q[0] == DOT);
                assert(p@.skip(i + 1) =~= Seq::<u8>::empty());
            }
            i = i + 1;
            break;
        } else if p.len() - i >= 2 && p[i] == DOT && p[i + 1] == SLASH {
            proof {
                assert(q[0] == DOT && q[1] == SLASH);
                assert(q.skip(2) =~= p@.skip(i + 2));
            }
            i = i + 2;
        } else {
            proof {
                if q.len() > 0 {
                    assert(q[0] == p@[i as int]);
                }
                if q.len() > 1 {
                    assert(q[1] == p@[i + 1]);
                }
            }
            break;
        }
    }
    i
}

fn component_len(p: &[u8], from: usize) -> (n: usize)
    requires
        from <= p@.len(),
    ensures
        from + n <= p@.len(),
        n == first_len(p@.skip(from as int)),
{
    let mut i: usize = from;
    while i < p.len() && p[i] != SLASH
        invariant
            from <= i <= p@.len(),
            first_len(p@.skip(from as int)) == i - from + first_len(p@.skip(i as int)),
        decreases p@.len() - i,
    {
        proof {
            let q = p@.skip(i as int);
            assert(q[0] == p@[i as int]);
            assert(q.skip(1) =~= p@.skip(i + 1));
        }
        i = i + 1;
    }
    proof {
        let q = p@.skip(i as int);
        if q.len() > 0 {
            assert(q[0] == p@[i as int]);
        }
    }
    i - from
}

/// What remains of a path after a leading path, component by component.
pub fn strip_prefix(p: &[u8], lead: &[u8]) -> (r: Option<Vec<u8>>)
    ensures
        match r {
            Some(v) => stripped(p@, lead@) == Some(v@),
            None => stripped(p@, lead@) is None,
        },
{
    let mut i: usize = 0;
    let mut j: usize = 0;
    proof {
        assert(p@.skip(0) =~= p@);
        assert(lead@.skip(0) =~= lead@);
    }
    loop
        invariant
            i <= p@.len(),
            j <= lead@.len(),
            stripped(p@, lead@) == stripped(p@.skip(i as int), lead@.skip(j as int)),
        decreases lead@.len() - j,
    {
        let a: usize = front(p, i);
        let b: usize = front(lead, j);
        let ghost q = p@.skip(a as int);
        let ghost s = lead@.skip(b as int);
        if b == lead.len() {
            let rest = vstd::slice::slice_subrange(p, a, p.len());
            let n: usize = trim_len(rest, rest.len());
            let out = vstd::slice::slice_subrange(rest, 0, n);
            proof {
                assert(rest@ =~= q);
                assert(rest@.take(rest@.len() as int) =~= rest@);
                assert(out@ =~= rest@.take(n as int));
            }
            return Some(vstd::slice::slice_to_vec(out));
        }
        if a == p.len() {
            return None;
        }
        let n: usize = component_len(p, a);
        let m: usize = component_len(lead, b);
        let x = vstd::slice::slice_subrange(p, a, a + n);
        let y = vstd::slice::slice_subrange(lead, b, b + m);
        proof {
            assert(x@ =~= q.take(n as int));
            assert(y@ =~= s.take(m as int));
            lemma_skip_front(lead@.skip(j as int));
            lemma_first_len(s);
            assert(q.skip(n as int) =~= p@.skip(a + n));
            assert(s.skip(m as int) =~= lead@.skip(b + m));
        }
        if !crate::text::same_bytes(x, y) {
            return None;
        }
        i = a + n;
        j = b + m;
    }
}

/// Adds a relative path to a directory's path.
pub fn join(dir: &[u8], relative: &[u8]) -> (r: Vec<u8>)
    ensures
        r@ == pushed(dir@, relative@),
{
    let mut out = vstd::slice::slice_to_vec(dir);
    if out.len() > 0 && out[out.len() - 1] != SLASH {
        out.push(SLASH);
    }
    out.extend_from_slice(relative);
    proof {
        assert(out@ =~= pushed(dir@, relative@));
    }
    out
}

} // verus!
