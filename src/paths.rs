//! Paths as text: components separated by `/`, the way the platform writes them.
//!
//! Each operation is stated as a spec function over the characters of a path and
//! follows `std::path` on paths without repeated or trailing separators.
use vstd::prelude::*;
use crate::text::{chars_of, has_prefix, push_char, push_range, text_of};

verus! {

/// Position of the last `c` in `s`, or -1 if there is none.
pub open spec fn last_index_of(s: Seq<char>, c: char) -> int
    decreases s.len(),
{
    if s.len() == 0 {
        -1
    } else if s.last() == c {
        s.len() - 1
    } else {
        last_index_of(s.drop_last(), c)
    }
}

pub proof fn lemma_last_index_of(s: Seq<char>, c: char)
    ensures
        -1 <= last_index_of(s, c) < s.len(),
        last_index_of(s, c) >= 0 ==> s[last_index_of(s, c)] == c,
        forall|j: int| last_index_of(s, c) < j < s.len() ==> s[j] != c,
    decreases s.len(),
{
    if s.len() > 0 && s.last() != c {
        let t = s.drop_last();
        lemma_last_index_of(t, c);
        assert forall|j: int| last_index_of(s, c) < j < s.len() implies s[j] != c by {
            if j < t.len() {
                assert(s[j] == t[j]);
            }
        }
    }
}

/// The last component: everything after the last separator.
pub open spec fn file_name_of(p: Seq<char>) -> Seq<char> {
    p.subrange(last_index_of(p, '/') + 1, p.len() as int)
}

/// The path without its last component; none for the empty path and the root.
pub open spec fn parent_of(p: Seq<char>) -> Option<Seq<char>> {
    let k = last_index_of(p, '/');
    if k < 0 {
        if p.len() == 0 {
            None
        } else {
            Some(Seq::empty())
        }
    } else if k == 0 {
        if p.len() == 1 {
            None
        } else {
            Some(seq!['/'])
        }
    } else {
        Some(p.subrange(0, k))
    }
}

/// `base` is `p` or one of its ancestors, compared component by component
/// (the empty path is an ancestor of every path).
pub open spec fn starts_with_path(p: Seq<char>, base: Seq<char>) -> bool {
    base.len() == 0 || {
        &&& base.len() <= p.len()
        &&& p.subrange(0, base.len() as int) == base
        &&& (p.len() == base.len() || base.last() == '/' || p[base.len() as int] == '/')
    }
}

/// What remains of `p` below `base`, if `base` is one of its ancestors.
pub open spec fn strip_base(p: Seq<char>, base: Seq<char>) -> Option<Seq<char>> {
    if !starts_with_path(p, base) {
        None
    } else if base.len() == 0 {
        Some(p)
    } else if p.len() == base.len() {
        Some(Seq::empty())
    } else if base.last() == '/' {
        Some(p.subrange(base.len() as int, p.len() as int))
    } else {
        Some(p.subrange(base.len() as int + 1, p.len() as int))
    }
}

/// `rel` placed under `dir`; an absolute `rel` stands for itself.
pub open spec fn join_path(dir: Seq<char>, rel: Seq<char>) -> Seq<char> {
    if rel.len() > 0 && rel[0] == '/' {
        rel
    } else if dir.len() == 0 {
        rel
    } else if dir.last() == '/' {
        dir + rel
    } else {
        dir + seq!['/'] + rel
    }
}

/// Where the stem of the last component ends: before its last dot, unless that
/// dot is the component's first character or there is none.
pub open spec fn stem_end(p: Seq<char>) -> int {
    let start = last_index_of(p, '/') + 1;
    let d = last_index_of(file_name_of(p), '.');
    if d > 0 {
        start + d
    } else {
        p.len() as int
    }
}

/// `p` with the extension of its last component replaced by `ext`.
/// A path without a last component is left as it is.
pub open spec fn replace_extension(p: Seq<char>, ext: Seq<char>) -> Seq<char> {
    if file_name_of(p).len() == 0 {
        p
    } else if ext.len() == 0 {
        p.subrange(0, stem_end(p))
    } else {
        p.subrange(0, stem_end(p)) + seq!['.'] + ext
    }
}

/// The text after the last dot of the last component, if that dot is not its
/// first character.
pub open spec fn extension_of(p: Seq<char>) -> Option<Seq<char>> {
    let name = file_name_of(p);
    let d = last_index_of(name, '.');
    if d > 0 {
        Some(name.subrange(d + 1, name.len() as int))
    } else {
        None
    }
}

/// Position of the last `c` in `v[from..to]`, counted from `from`.
fn last_index_in(v: &Vec<char>, from: usize, to: usize, c: char) -> (r: Option<usize>)
    requires
        from <= to <= v@.len(),
    ensures
        match r {
            Some(k) => last_index_of(v@.subrange(from as int, to as int), c) == k,
            None => last_index_of(v@.subrange(from as int, to as int), c) == -1,
        },
{
    let mut i: usize = to;
    while i > from
        invariant
            from <= i <= to <= v@.len(),
            last_index_of(v@.subrange(from as int, to as int), c) == last_index_of(
                v@.subrange(from as int, i as int),
                c,
            ),
        decreases i,
    {
        let ghost sub = v@.subrange(from as int, i as int);
        if v[i - 1] == c {
            assert(sub.last() == c);
            return Some(i - 1 - from);
        }
        assert(sub.drop_last() =~= v@.subrange(from as int, i - 1));
        i = i - 1;
    }
    None
}

/// Position where the last component of `v` starts.
fn name_start(v: &Vec<char>) -> (r: usize)
    ensures
        r == last_index_of(v@, '/') + 1,
        r <= v@.len(),
{
    proof {
        lemma_last_index_of(v@, '/');
    }
    assert(v@.subrange(0, v@.len() as int) =~= v@);
    match last_index_in(v, 0, v.len(), '/') {
        Some(k) => k + 1,
        None => 0,
    }
}

/// The last component of `path`.
pub fn file_name(path: &str) -> (r: String)
    ensures
        r@ == file_name_of(path@),
{
    let v = chars_of(path);
    let start = name_start(&v);
    text_of(&v, start, v.len())
}

/// The parent of `path`, if it has one.
pub fn parent(path: &str) -> (r: Option<String>)
    ensures
        r matches Some(q) <==> parent_of(path@) is Some,
        r matches Some(q) ==> parent_of(path@) == Some(q@),
{
    let v = chars_of(path);
    let start = name_start(&v);
    proof {
        lemma_last_index_of(v@, '/');
    }
    if start == 0 {
        if v.len() == 0 {
            None
        } else {
            Some(String::new())
        }
    } else if start == 1 {
        if v.len() == 1 {
            None
        } else {
            Some(text_of(&v, 0, 1))
        }
    } else {
        Some(text_of(&v, 0, start - 1))
    }
}

/// Whether `base` is `path` or one of its ancestors.
pub fn starts_with(path: &str, base: &str) -> (r: bool)
    ensures
        r == starts_with_path(path@, base@),
{
    let p = chars_of(path);
    let b = chars_of(base);
    if b.len() == 0 {
        return true;
    }
    if !has_prefix(&p, &b) {
        return false;
    }
    p.len() == b.len() || b[b.len() - 1] == '/' || p[b.len()] == '/'
}

/// What remains of `path` below `base`, if `base` is one of its ancestors.
pub fn strip_prefix(path: &str, base: &str) -> (r: Option<String>)
    ensures
        r matches Some(q) <==> strip_base(path@, base@) is Some,
        r matches Some(q) ==> strip_base(path@, base@) == Some(q@),
{
    if !starts_with(path, base) {
        return None;
    }
    let p = chars_of(path);
    let b = chars_of(base);
    assert(p@.subrange(0, p@.len() as int) =~= p@);
    if b.len() == 0 {
        Some(text_of(&p, 0, p.len()))
    } else if p.len() == b.len() {
        Some(String::new())
    } else if b[b.len() - 1] == '/' {
        Some(text_of(&p, b.len(), p.len()))
    } else {
        Some(text_of(&p, b.len() + 1, p.len()))
    }
}

/// `rel` placed under `dir`.
pub fn join(dir: &str, rel: &str) -> (r: String)
    ensures
        r@ == join_path(dir@, rel@),
{
    let d = chars_of(dir);
    let v = chars_of(rel);
    assert(v@.subrange(0, v@.len() as int) =~= v@);
    assert(d@.subrange(0, d@.len() as int) =~= d@);
    if (v.len() > 0 && v[0] == '/') || d.len() == 0 {
        return text_of(&v, 0, v.len());
    }
    let mut out = text_of(&d, 0, d.len());
    if d[d.len() - 1] != '/' {
        push_char(&mut out, '/');
    }
    push_range(&mut out, &v, 0, v.len());
    out
}

/// `path` with the extension of its last component replaced by `ext`.
pub fn with_extension(path: &str, ext: &str) -> (r: String)
    ensures
        r@ == replace_extension(path@, ext@),
{
    let v = chars_of(path);
    let start = name_start(&v);
    assert(v@.subrange(0, v@.len() as int) =~= v@);
    if start == v.len() {
        return text_of(&v, 0, v.len());
    }
    proof {
        lemma_last_index_of(v@.subrange(start as int, v@.len() as int), '.');
    }
    let stem = match last_index_in(&v, start, v.len(), '.') {
        Some(d) => if d > 0 {
            start + d
        } else {
            v.len()
        },
        None => v.len(),
    };
    let mut out = text_of(&v, 0, stem);
    let e = chars_of(ext);
    if e.len() > 0 {
        push_char(&mut out, '.');
        push_range(&mut out, &e, 0, e.len());
        assert(e@.subrange(0, e@.len() as int) =~= e@);
    }
    out
}

/// The extension of the last component of `path`, if it has one.
pub fn extension(path: &str) -> (r: Option<String>)
    ensures
        r matches Some(e) <==> extension_of(path@) is Some,
        r matches Some(e) ==> extension_of(path@) == Some(e@),
{
    let v = chars_of(path);
    let start = name_start(&v);
    match last_index_in(&v, start, v.len(), '.') {
        Some(d) => if d > 0 {
            proof {
                lemma_last_index_of(v@.subrange(start as int, v@.len() as int), '.');
            }
            assert(v@.subrange(start as int, v@.len() as int).subrange(d + 1, v@.len() - start)
                =~= v@.subrange(start + d + 1, v@.len() as int));
            Some(text_of(&v, start + d + 1, v.len()))
        } else {
            None
        },
        None => None,
    }
}

} // verus!
