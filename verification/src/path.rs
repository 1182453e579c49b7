//! When two paths on the filesystem are the same path.
//!
//! A path is read as the parts between its separators. Parts of no length do not count, and neither
//! does the part `.`, except where a path begins with it. So `a/b`, `a//b`, `a/./b` and `a/b/` are
//! one path, and `/a/b` and `./a/b` are two others.
use vstd::prelude::*;

verus! {

/// The byte that separates the parts of a path.
pub const SEPARATOR: u8 = 0x2f;

/// The byte that stands for the directory that a path is in.
pub const DOT: u8 = 0x2e;

/// The path begins at the root.
pub open spec fn is_absolute(path: Seq<u8>) -> bool {
    path.len() > 0 && path[0] == SEPARATOR
}

/// Whether the part of a path from `start` to `end` counts.
pub open spec fn counts(path: Seq<u8>, start: int, end: int) -> bool {
    start < end && !(start > 0 && end == start + 1 && path[start] == DOT)
}

/// The part of a path from `start` to `end`, if it counts.
pub open spec fn component(path: Seq<u8>, start: int, end: int) -> Seq<Seq<u8>> {
    if counts(path, start, end) {
        seq![path.subrange(start, end)]
    } else {
        seq![]
    }
}

/// The parts of a path that count, from the one on that begins at `start` and has no separator
/// before `i`.
pub open spec fn components_from(path: Seq<u8>, start: int, i: int) -> Seq<Seq<u8>>
    decreases path.len() - i,
{
    if i >= path.len() {
        component(path, start, path.len() as int)
    } else if path[i] == SEPARATOR {
        component(path, start, i) + components_from(path, i + 1, i + 1)
    } else {
        components_from(path, start, i + 1)
    }
}

/// The parts of a path that count.
pub open spec fn components(path: Seq<u8>) -> Seq<Seq<u8>> {
    components_from(path, 0, 0)
}

/// Both begin at the root or neither does, and their parts are the same.
pub open spec fn is_same_path(a: Seq<u8>, b: Seq<u8>) -> bool {
    is_absolute(a) == is_absolute(b) && components(a) == components(b)
}

/// Finds the first part that counts of what a path holds from `from` on: where it begins, where it
/// ends, and where the next part begins.
fn next_component(path: &[u8], from: usize) -> (r: Option<(usize, usize, usize)>)
    requires
        from <= path@.len(),
    ensures
        match r {
            Some((start, end, next)) => {
                &&& from <= start < end <= next <= path@.len()
                &&& components_from(path@, from as int, from as int) == seq![
                    path@.subrange(start as int, end as int),
                ] + components_from(path@, next as int, next as int)
            },
            None => components_from(path@, from as int, from as int).len() == 0,
        },
{
    let mut start: usize = from;
    let mut i: usize = from;
    while i < path.len()
        invariant
            from <= start <= i <= path@.len(),
            components_from(path@, from as int, from as int) == components_from(
                path@,
                start as int,
                i as int,
            ),
        decreases path@.len() - i,
    {
        if path[i] == SEPARATOR {
            if start < i && !(start > 0 && i == start + 1 && path[start] == DOT) {
                return Some((start, i, i + 1));
            }
            proof {
                assert(components_from(path@, start as int, i as int) =~= components_from(
                    path@,
                    i + 1,
                    i + 1,
                ));
            }
            start = i + 1;
        }
        i = i + 1;
    }
    if start < i && !(start > 0 && i == start + 1 && path[start] == DOT) {
        proof {
            assert(components_from(path@, start as int, i as int) =~= seq![
                path@.subrange(start as int, i as int),
            ] + components_from(path@, i as int, i as int));
        }
        Some((start, i, i))
    } else {
        None
    }
}

/// Tells whether two runs of bytes are equal.
pub(crate) fn same_bytes(a: &[u8], a_start: usize, a_end: usize, b: &[u8], b_start: usize, b_end: usize) -> (r:
    bool)
    requires
        a_start <= a_end <= a@.len(),
        b_start <= b_end <= b@.len(),
    ensures
        r == (a@.subrange(a_start as int, a_end as int) == b@.subrange(
            b_start as int,
            b_end as int,
        )),
{
    let ghost x = a@.subrange(a_start as int, a_end as int);
    let ghost y = b@.subrange(b_start as int, b_end as int);
    let n: usize = a_end - a_start;
    if n != b_end - b_start {
        assert(x.len() != y.len());
        return false;
    }
    let mut i: usize = 0;
    while i < n
        invariant
            x == a@.subrange(a_start as int, a_end as int),
            y == b@.subrange(b_start as int, b_end as int),
            n == a_end - a_start,
            n == b_end - b_start,
            a_start <= a_end <= a@.len(),
            b_start <= b_end <= b@.len(),
            i <= n,
            forall|j: int| 0 <= j < i ==> x[j] == y[j],
        decreases n - i,
    {
        if a[a_start + i] != b[b_start + i] {
            assert(x[i as int] != y[i as int]);
            return false;
        }
        assert(x[i as int] == y[i as int]);
        i = i + 1;
    }
    assert(x =~= y);
    true
}

/// Tells whether two paths are the same path.
pub fn same_path(a: &[u8], b: &[u8]) -> (r: bool)
    ensures
        r == is_same_path(a@, b@),
{
    let a_absolute: bool = a.len() > 0 && a[0] == SEPARATOR;
    let b_absolute: bool = b.len() > 0 && b[0] == SEPARATOR;
    if a_absolute != b_absolute {
        return false;
    }
    let mut i: usize = 0;
    let mut j: usize = 0;
    loop
        invariant
            i <= a@.len(),
            j <= b@.len(),
            is_absolute(a@) == is_absolute(b@),
            is_same_path(a@, b@) == (components_from(a@, i as int, i as int) == components_from(
                b@,
                j as int,
                j as int,
            )),
        decreases a@.len() - i,
    {
        let ghost x = components_from(a@, i as int, i as int);
        let ghost y = components_from(b@, j as int, j as int);
        match (next_component(a, i), next_component(b, j)) {
            (None, None) => {
                assert(x =~= y);
                return true;
            },
            (Some((a_start, a_end, a_next)), Some((b_start, b_end, b_next))) => {
                proof {
                    assert(x.drop_first() =~= components_from(a@, a_next as int, a_next as int));
                    assert(y.drop_first() =~= components_from(b@, b_next as int, b_next as int));
                    if x[0] == y[0] && x.drop_first() == y.drop_first() {
                        assert(x =~= seq![x[0]] + x.drop_first());
                        assert(y =~= seq![y[0]] + y.drop_first());
                    }
                }
                if !same_bytes(a, a_start, a_end, b, b_start, b_end) {
                    return false;
                }
                i = a_next;
                j = b_next;
            },
            _ => {
                assert(x.len() != y.len());
                return false;
            },
        }
    }
}

/// A path is at the root where it begins with a slash. Two paths are the same where both are at the
/// root or neither is and their parts are the same, and never otherwise.
pub proof fn law_same_paths(a: Seq<u8>, b: Seq<u8>)
    ensures
        is_absolute(a) <==> a.len() > 0 && a[0] == 0x2f,
        is_same_path(a, b) <==> (a.len() > 0 && a[0] == 0x2f <==> b.len() > 0 && b[0] == 0x2f)
            && components(a) == components(b),
{
}

/// A run of bytes without a separator is passed over.
proof fn lemma_no_separator(path: Seq<u8>, start: int, i: int, end: int)
    requires
        0 <= start <= i <= end <= path.len(),
        forall|k: int| i <= k < end ==> path[k] != 0x2f,
    ensures
        components_from(path, start, i) == components_from(path, start, end),
    decreases end - i,
{
    if i < end {
        lemma_no_separator(path, start, i + 1, end);
    }
}

/// A path without a slash is its own only part, and has none where it is empty.
pub proof fn law_path_without_slash_is_one_part(part: Seq<u8>)
    requires
        forall|k: int| 0 <= k < part.len() ==> part[k] != 0x2f,
    ensures
        part.len() == 0 ==> components(part).len() == 0,
        part.len() > 0 ==> components(part) == seq![part],
{
    lemma_no_separator(part, 0, 0, part.len() as int);
    if part.len() > 0 {
        assert(part.subrange(0, part.len() as int) =~= part);
    }
}

/// What stands before the last slash of a path has the same parts within the path.
proof fn lemma_prefix(head: Seq<u8>, part: Seq<u8>, start: int, i: int)
    requires
        0 <= start <= i <= head.len(),
    ensures
        ({
            let path = head + seq![0x2fu8] + part;
            let n = head.len() as int;
            components_from(path, start, i) == components_from(head, start, i) + components_from(
                path,
                n + 1,
                n + 1,
            )
        }),
    decreases head.len() - i,
{
    let path = head + seq![0x2fu8] + part;
    let n = head.len() as int;
    let rest = components_from(path, n + 1, n + 1);
    assert(path[n] == 0x2f);
    assert(path.subrange(start, i) =~= head.subrange(start, i));
    assert(start < n ==> path[start] == head[start]);
    if i == n {
        assert(component(path, start, n) =~= component(head, start, n));
    } else {
        assert(path[i] == head[i]);
        if head[i] == 0x2f {
            lemma_prefix(head, part, i + 1, i + 1);
            assert(component(path, start, i) =~= component(head, start, i));
            assert(components_from(path, start, i) =~= components_from(head, start, i) + rest);
        } else {
            lemma_prefix(head, part, start, i + 1);
        }
    }
}

/// What stands behind the last slash of a path is one part more, unless nothing stands there or a
/// dot alone does.
pub proof fn law_slash_begins_a_part(head: Seq<u8>, part: Seq<u8>)
    requires
        forall|k: int| 0 <= k < part.len() ==> part[k] != 0x2f,
    ensures
        part.len() == 0 || part == seq![0x2eu8] ==> components(head + seq![0x2fu8] + part)
            == components(head),
        part.len() > 0 && part != seq![0x2eu8] ==> components(head + seq![0x2fu8] + part)
            == components(head).push(part),
{
    let path = head + seq![0x2fu8] + part;
    let n = head.len() as int;
    lemma_prefix(head, part, 0, 0);
    assert forall|k: int| n + 1 <= k < path.len() implies path[k] != 0x2f by {
        assert(path[k] == part[k - n - 1]);
    }
    lemma_no_separator(path, n + 1, n + 1, path.len() as int);
    assert(path.subrange(n + 1, path.len() as int) =~= part);
    if part.len() == 1 {
        assert(path[n + 1] == part[0]);
        if part[0] == 0x2e {
            assert(part =~= seq![0x2eu8]);
        }
    }
    if part.len() > 0 && part != seq![0x2eu8] {
        assert(components(path) =~= components(head).push(part));
    } else {
        assert(components(path) =~= components(head));
    }
}

/// Slashes more in one place, a dot between slashes and a slash at the end make no other path.
pub proof fn law_slashes_and_dots_do_not_count(head: Seq<u8>, tail: Seq<u8>)
    requires
        head.len() > 0,
        forall|k: int| 0 <= k < tail.len() ==> tail[k] != 0x2f,
    ensures
        is_same_path(head + seq![0x2fu8], head),
        is_same_path(head + seq![0x2fu8] + seq![0x2eu8], head),
        is_same_path(head + seq![0x2fu8] + seq![0x2fu8] + tail, head + seq![0x2fu8] + tail),
        is_same_path(
            head + seq![0x2fu8] + seq![0x2eu8] + seq![0x2fu8] + tail,
            head + seq![0x2fu8] + tail,
        ),
{
    let slash = seq![0x2fu8];
    let dot = seq![0x2eu8];
    let none = Seq::<u8>::empty();
    law_slash_begins_a_part(head, none);
    assert(head + slash + none =~= head + slash);
    law_slash_begins_a_part(head, dot);
    law_slash_begins_a_part(head, tail);
    law_slash_begins_a_part(head + slash, tail);
    law_slash_begins_a_part(head + slash + dot, tail);
    assert((head + slash)[0] == head[0]);
    assert((head + slash + dot)[0] == head[0]);
    assert((head + slash + slash + tail)[0] == head[0]);
    assert((head + slash + dot + slash + tail)[0] == head[0]);
    assert((head + slash + tail)[0] == head[0]);
}

} // verus!
