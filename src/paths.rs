//! Paths as character sequences with `/` as the separator.
use vstd::prelude::*;
use crate::text::{chars_of, concat, push_char, string_of};

verus! {

/// A path is absolute when it starts at the root.
pub open spec fn is_absolute(p: Seq<char>) -> bool {
    p.len() > 0 && p[0] == '/'
}

/// `p` taken relative to `base`: an absolute `p` stands for itself, otherwise it is
/// appended to `base` with one separator between them.
pub open spec fn join(base: Seq<char>, p: Seq<char>) -> Seq<char> {
    if is_absolute(p) {
        p
    } else if base.len() == 0 || base.last() == '/' {
        base + p
    } else {
        base + seq!['/'] + p
    }
}

/// Where the last component of `p` starts: just after its last separator.
pub open spec fn name_start(p: Seq<char>) -> int
    decreases p.len(),
{
    if p.len() == 0 {
        0
    } else if p.last() == '/' {
        p.len() as int
    } else {
        name_start(p.drop_last())
    }
}

/// The last component of `p`; none when it is empty, `.` or `..`.
pub open spec fn file_name(p: Seq<char>) -> Option<Seq<char>> {
    let n = p.subrange(name_start(p), p.len() as int);
    if n.len() == 0 || n == seq!['.'] || n == seq!['.', '.'] {
        None
    } else {
        Some(n)
    }
}

/// The first index at or after `i` that holds a dot, or the length of `s`.
pub open spec fn dot_from(s: Seq<char>, i: int) -> int
    decreases s.len() - i,
{
    if i >= s.len() {
        s.len() as int
    } else if s[i] == '.' {
        i
    } else {
        dot_from(s, i + 1)
    }
}

/// A file name up to its first dot that is not its first character.
pub open spec fn file_prefix(n: Seq<char>) -> Seq<char> {
    n.subrange(0, dot_from(n, 1))
}

/// The prefix of the file name of `p`, if `p` has a file name.
pub open spec fn base_name(p: Seq<char>) -> Option<Seq<char>> {
    match file_name(p) {
        Some(n) => Some(file_prefix(n)),
        None => None,
    }
}

proof fn lemma_name_start_prefix(p: Seq<char>, i: int)
    requires
        0 <= i <= p.len(),
        forall|j: int| i <= j < p.len() ==> p[j] != '/',
    ensures
        name_start(p) == name_start(p.subrange(0, i)),
    decreases p.len(),
{
    if p.len() > i {
        assert(p.drop_last().subrange(0, i) =~= p.subrange(0, i));
        lemma_name_start_prefix(p.drop_last(), i);
    } else {
        assert(p.subrange(0, i) =~= p);
    }
}

proof fn lemma_dot_from_bounds(s: Seq<char>, i: int)
    requires
        0 <= i,
    ensures
        i <= s.len() ==> i <= dot_from(s, i) <= s.len(),
    decreases s.len() - i,
{
    if i < s.len() && s[i] != '.' {
        lemma_dot_from_bounds(s, i + 1);
    }
}

/// An absolute path taken relative to any base is that same path.
pub proof fn lemma_join_absolute(base: Seq<char>, p: Seq<char>)
    requires
        is_absolute(p),
    ensures
        join(base, p) == p,
{
}

/// Resolving against an absolute base gives an absolute path, which a second
/// resolution, against any base, leaves as it is.
pub proof fn lemma_resolve_idempotent(base: Seq<char>, other: Seq<char>, p: Seq<char>)
    requires
        is_absolute(base),
    ensures
        is_absolute(join(base, p)),
        join(other, join(base, p)) == join(base, p),
{
    let r = join(base, p);
    if !is_absolute(p) {
        if base.last() == '/' {
            assert(r[0] == base[0]);
        } else {
            assert(r[0] == base[0]);
        }
    }
}

/// `p` taken relative to `base`: an absolute `p` is returned as it is, a relative
/// one is appended to `base`.
pub fn join_path(base: &str, p: &str) -> (r: String)
    ensures
        r@ == join(base@, p@),
{
    let pc = chars_of(p);
    if pc.len() > 0 && pc[0] == '/' {
        return p.to_owned();
    }
    let bc = chars_of(base);
    if bc.len() == 0 || bc[bc.len() - 1] == '/' {
        concat(base, p)
    } else {
        let mut s: String = base.to_owned();
        push_char(&mut s, '/');
        let r = s.concat(p);
        assert(r@ =~= base@ + seq!['/'] + p@);
        r
    }
}

/// The file name of `path` up to its first dot that is not its first character:
/// `service` for `/x/service.edl`. None when the last component of `path` is empty,
/// `.` or `..`.
pub fn base_name_of(path: &str) -> (r: Option<String>)
    ensures
        r is Some <==> base_name(path@) is Some,
        r is Some ==> r->0@ == base_name(path@)->0,
{
    let pc = chars_of(path);
    let ghost p = path@;
    let mut i: usize = pc.len();
    while i > 0 && pc[i - 1] != '/'
        invariant
            i <= p.len(),
            pc@ == p,
            forall|j: int| i <= j < p.len() ==> p[j] != '/',
        decreases i,
    {
        i = i - 1;
    }
    proof {
        lemma_name_start_prefix(p, i as int);
        if i > 0 {
            assert(p.subrange(0, i as int).drop_last() =~= p.subrange(0, i - 1));
        } else {
            assert(p.subrange(0, 0) =~= Seq::<char>::empty());
        }
        assert(name_start(p) == i);
    }
    let n = pc.len() - i;
    let ghost name = p.subrange(i as int, p.len() as int);
    if n == 0 || (n == 1 && pc[i] == '.') || (n == 2 && pc[i] == '.' && pc[i + 1] == '.') {
        proof {
            if n == 1 {
                assert(name =~= seq!['.']);
            }
            if n == 2 {
                assert(name =~= seq!['.', '.']);
            }
        }
        return None;
    }
    proof {
        if name == seq!['.'] {
            assert(name[0] == pc@[i as int]);
        }
        if name == seq!['.', '.'] {
            assert(name[0] == pc@[i as int]);
            assert(name[1] == pc@[i + 1]);
        }
    }
    let mut j: usize = i + 1;
    while j < pc.len() && pc[j] != '.'
        invariant
            i < j <= p.len(),
            pc@ == p,
            name == p.subrange(i as int, p.len() as int),
            dot_from(name, 1) == dot_from(name, j - i),
        decreases p.len() - j,
    {
        j = j + 1;
    }
    proof {
        lemma_dot_from_bounds(name, 1);
    }
    let r = string_of(&pc, i, j);
    assert(r@ =~= file_prefix(name));
    Some(r)
}

} // verus!
