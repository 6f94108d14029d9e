//! Character-level helpers: splitting text into pieces and building strings.
use vstd::prelude::*;

verus! {

/// Whitespace as the flag strings use it: space, tab, line feed, vertical tab,
/// form feed and carriage return.
pub open spec fn is_space(c: char) -> bool {
    c == ' ' || c == '\t' || c == '\n' || c == '\x0b' || c == '\x0c' || c == '\r'
}

/// The separator of a split: whitespace when `on_space`, else the line feed.
pub open spec fn is_separator(c: char, on_space: bool) -> bool {
    if on_space {
        is_space(c)
    } else {
        c == '\n'
    }
}

/// The pieces of `t` between separators, empty pieces kept; never empty itself.
pub open spec fn split_by(t: Seq<char>, on_space: bool) -> Seq<Seq<char>>
    decreases t.len(),
{
    if t.len() == 0 {
        seq![Seq::<char>::empty()]
    } else if is_separator(t.last(), on_space) {
        split_by(t.drop_last(), on_space).push(Seq::<char>::empty())
    } else {
        let p = split_by(t.drop_last(), on_space);
        p.update(p.len() - 1, p.last().push(t.last()))
    }
}

/// The lines of `t`, split at each line feed.
pub open spec fn lines(t: Seq<char>) -> Seq<Seq<char>> {
    split_by(t, false)
}

/// The non-empty members of `ps`, in order.
pub open spec fn non_empty(ps: Seq<Seq<char>>) -> Seq<Seq<char>>
    decreases ps.len(),
{
    if ps.len() == 0 {
        Seq::<Seq<char>>::empty()
    } else if ps.last().len() == 0 {
        non_empty(ps.drop_last())
    } else {
        non_empty(ps.drop_last()).push(ps.last())
    }
}

/// The whitespace-separated words of `t`.
pub open spec fn words(t: Seq<char>) -> Seq<Seq<char>> {
    non_empty(split_by(t, true))
}

/// The character sequences of a sequence of strings.
pub open spec fn views(v: Seq<String>) -> Seq<Seq<char>> {
    v.map_values(|s: String| s@)
}

/// Relies on `String::push`: appends one character.
#[verifier::external_body]
pub(crate) fn push_char(s: &mut String, c: char)
    ensures
        final(s)@ == old(s)@.push(c),
{
    s.push(c)
}

/// The characters of `s`, in order.
pub fn chars_of(s: &str) -> (r: Vec<char>)
    ensures
        r@ == s@,
{
    let mut r: Vec<char> = Vec::new();
    for c in it: s.chars()
        invariant
            r@ == it.seq().subrange(0, it.index() as int),
    {
        r.push(c);
    }
    r
}

/// The string made of `v[from..to]`.
pub fn string_of(v: &Vec<char>, from: usize, to: usize) -> (r: String)
    requires
        from <= to <= v@.len(),
    ensures
        r@ == v@.subrange(from as int, to as int),
{
    let mut r = String::new();
    let mut i: usize = from;
    while i < to
        invariant
            from <= i <= to <= v@.len(),
            r@ == v@.subrange(from as int, i as int),
        decreases to - i,
    {
        push_char(&mut r, v[i]);
        i = i + 1;
        assert(r@ =~= v@.subrange(from as int, i as int));
    }
    r
}

/// Whether two strings hold the same characters.
pub fn str_eq(a: &str, b: &str) -> (r: bool)
    ensures
        r == (a@ == b@),
{
    let x: String = a.to_owned();
    let y: String = b.to_owned();
    x == y
}

/// `a` followed by `b`.
pub fn concat(a: &str, b: &str) -> (r: String)
    ensures
        r@ == a@ + b@,
{
    let x: String = a.to_owned();
    x.concat(b)
}

/// Splits `t` at every separator (whitespace when `on_space`, else line feeds),
/// keeping empty pieces.
pub fn split_chars(t: &Vec<char>, on_space: bool) -> (r: Vec<Vec<char>>)
    ensures
        r@.map_values(|p: Vec<char>| p@) == split_by(t@, on_space),
{
    let mut done: Vec<Vec<char>> = Vec::new();
    let mut cur: Vec<char> = Vec::new();
    let mut i: usize = 0;
    proof {
        assert(t@.subrange(0, 0) =~= Seq::<char>::empty());
    }
    while i < t.len()
        invariant
            i <= t@.len(),
            done@.map_values(|p: Vec<char>| p@).push(cur@) == split_by(t@.subrange(0, i as int), on_space),
        decreases t.len() - i,
    {
        let c = t[i];
        let ghost before = t@.subrange(0, i as int);
        let ghost after = t@.subrange(0, i + 1);
        assert(after.drop_last() =~= before);
        assert(after.last() == c);
        let sep = if on_space {
            c == ' ' || c == '\t' || c == '\n' || c == '\x0b' || c == '\x0c' || c == '\r'
        } else {
            c == '\n'
        };
        if sep {
            let line = cur;
            done.push(line);
            cur = Vec::new();
            assert(done@.map_values(|p: Vec<char>| p@).push(cur@) =~= split_by(after, on_space));
        } else {
            let ghost old_done = done@.map_values(|p: Vec<char>| p@);
            let ghost old_cur = cur@;
            cur.push(c);
            let ghost p = split_by(before, on_space);
            assert(p == old_done.push(old_cur));
            assert(done@.map_values(|p: Vec<char>| p@).push(cur@) =~= p.update(
                p.len() - 1,
                p.last().push(c),
            ));
        }
        i = i + 1;
    }
    assert(t@.subrange(0, t@.len() as int) =~= t@);
    done.push(cur);
    assert(done@.map_values(|p: Vec<char>| p@) =~= split_by(t@, on_space));
    done
}

/// The whitespace-separated words of `s`, in order, with no empty word.
pub fn split_words(s: &str) -> (r: Vec<String>)
    ensures
        views(r@) == words(s@),
{
    let chars = chars_of(s);
    let pieces = split_chars(&chars, true);
    let ghost ps = pieces@.map_values(|p: Vec<char>| p@);
    let mut r: Vec<String> = Vec::new();
    let mut i: usize = 0;
    while i < pieces.len()
        invariant
            i <= pieces@.len(),
            ps == pieces@.map_values(|p: Vec<char>| p@),
            ps == split_by(s@, true),
            views(r@) == non_empty(ps.subrange(0, i as int)),
        decreases pieces.len() - i,
    {
        let ghost sub = ps.subrange(0, i + 1);
        assert(sub.drop_last() =~= ps.subrange(0, i as int));
        if pieces[i].len() > 0 {
            let w = string_of(&pieces[i], 0, pieces[i].len());
            assert(pieces@[i as int]@.subrange(0, pieces@[i as int]@.len() as int) =~= pieces@[i as int]@);
            r.push(w);
            assert(views(r@) =~= non_empty(sub));
        } else {
            assert(views(r@) =~= non_empty(sub));
        }
        i = i + 1;
    }
    assert(ps.subrange(0, ps.len() as int) =~= ps);
    r
}

} // verus!
