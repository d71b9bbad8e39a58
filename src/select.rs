//! Which files a job works on, and the directory their layout is mirrored from.
use vstd::prelude::*;
use crate::paths::{extension_of, last_index_of, lemma_last_index_of, parent_of, starts_with_path};

verus! {

/// A path chosen by the user, with what the filesystem reports it to be.
#[derive(Clone)]
pub struct InputPath {
    pub path: String,
    pub is_file: bool,
}

/// `c` is the lower-case letter `t`, in either case.
pub open spec fn same_letter(c: char, t: char) -> bool {
    c == t || ('A' <= c <= 'Z' && c as u32 + 32 == t as u32)
}

/// `s` spells the lower-case word `w`, ignoring the case of ASCII letters.
pub open spec fn eq_ignore_case(s: Seq<char>, w: Seq<char>) -> bool {
    s.len() == w.len() && forall|i: int| 0 <= i < s.len() ==> same_letter(#[trigger] s[i], w[i])
}

/// The extensions of the raster formats the encoder reads.
pub open spec fn is_image_extension(e: Seq<char>) -> bool {
    ||| eq_ignore_case(e, "jpg"@)
    ||| eq_ignore_case(e, "jpeg"@)
    ||| eq_ignore_case(e, "png"@)
    ||| eq_ignore_case(e, "gif"@)
    ||| eq_ignore_case(e, "bmp"@)
    ||| eq_ignore_case(e, "tiff"@)
    ||| eq_ignore_case(e, "tif"@)
    ||| eq_ignore_case(e, "webp"@)
    ||| eq_ignore_case(e, "ppm"@)
    ||| eq_ignore_case(e, "pgm"@)
    ||| eq_ignore_case(e, "pnm"@)
}

/// The extensions of JPEG files.
pub open spec fn is_jpeg_extension(e: Seq<char>) -> bool {
    eq_ignore_case(e, "jpg"@) || eq_ignore_case(e, "jpeg"@)
}

/// `p` names a file the encoder accepts, judged by its extension.
pub open spec fn is_supported_path(p: Seq<char>) -> bool {
    match extension_of(p) {
        Some(e) => is_image_extension(e),
        None => false,
    }
}

/// `p` names a JPEG file, judged by its extension.
pub open spec fn is_jpeg_path(p: Seq<char>) -> bool {
    match extension_of(p) {
        Some(e) => is_jpeg_extension(e),
        None => false,
    }
}

/// The files of `files` that the encoder accepts, in their order.
pub open spec fn supported_files(files: Seq<Seq<char>>) -> Seq<Seq<char>> {
    files.filter(|f: Seq<char>| is_supported_path(f))
}

/// `e` spells `w` (given in lower case), ignoring ASCII case.
pub fn matches_ignore_case(e: &Vec<char>, w: &str) -> (r: bool)
    ensures
        r == eq_ignore_case(e@, w@),
{
    let t = crate::text::chars_of(w);
    if e.len() != t.len() {
        return false;
    }
    let mut i: usize = 0;
    while i < e.len()
        invariant
            e@.len() == t@.len(),
            t@ == w@,
            i <= e@.len(),
            forall|j: int| 0 <= j < i ==> same_letter(#[trigger] e@[j], t@[j]),
        decreases e@.len() - i,
    {
        let c = e[i];
        let d = t[i];
        if !(c == d || ('A' <= c && c <= 'Z' && c as u32 + 32 == d as u32)) {
            return false;
        }
        i = i + 1;
    }
    true
}

/// The directory a selected path contributes: a file's parent, or a directory itself.
pub open spec fn candidate_dir(e: InputPath) -> Option<Seq<char>> {
    if e.is_file {
        parent_of(e.path@)
    } else {
        Some(e.path@)
    }
}

pub open spec fn all_candidates_resolve(ps: Seq<InputPath>) -> bool {
    forall|i: int| 0 <= i < ps.len() ==> (#[trigger] candidate_dir(ps[i])) is Some
}

/// `b` is an ancestor (or the same) of the candidate directory of every path of `ps`.
pub open spec fn all_under(ps: Seq<InputPath>, b: Seq<char>) -> bool {
    forall|i: int|
        0 <= i < ps.len() ==> starts_with_path(#[trigger] candidate_dir(ps[i])->0, b)
}

/// The first of `b` and its ancestors, walking upward, under which all of `ps` lie.
pub open spec fn ascend(b: Seq<char>, ps: Seq<InputPath>) -> Option<Seq<char>>
    decreases b.len(),
{
    if all_under(ps, b) {
        Some(b)
    } else {
        match parent_of(b) {
            Some(q) => {
                proof {
                    lemma_parent(b);
                }
                ascend(q, ps)
            },
            None => None,
        }
    }
}

/// The deepest directory holding every selected path, found from the first path's
/// directory upward; none for an empty selection, or when a lookup of a parent fails.
pub open spec fn common_base(ps: Seq<InputPath>) -> Option<Seq<char>> {
    if ps.len() == 0 || !all_candidates_resolve(ps) {
        None
    } else {
        ascend(candidate_dir(ps[0])->0, ps)
    }
}

pub proof fn lemma_parent(p: Seq<char>)
    ensures
        parent_of(p) matches Some(q) ==> q.len() < p.len() && starts_with_path(p, q),
{
    lemma_last_index_of(p, '/');
    let k = last_index_of(p, '/');
    if k > 0 {
        assert(p.subrange(0, k).subrange(0, k) =~= p.subrange(0, k));
    } else if k == 0 && p.len() > 1 {
        assert(p.subrange(0, 1) =~= seq!['/']);
    }
}

pub proof fn lemma_starts_with_refl(p: Seq<char>)
    ensures
        starts_with_path(p, p),
{
    assert(p.subrange(0, p.len() as int) =~= p);
}

pub proof fn lemma_starts_with_trans(p: Seq<char>, b: Seq<char>, q: Seq<char>)
    requires
        starts_with_path(p, b),
        starts_with_path(b, q),
    ensures
        starts_with_path(p, q),
{
    if q.len() > 0 {
        assert(p.subrange(0, q.len() as int) =~= p.subrange(0, b.len() as int).subrange(
            0,
            q.len() as int,
        ));
        if b.len() > q.len() && p.len() > q.len() && q.last() != '/' {
            assert(b[q.len() as int] == p.subrange(0, b.len() as int)[q.len() as int]);
        }
    }
}

pub(crate) proof fn lemma_all_under_parent(ps: Seq<InputPath>, b: Seq<char>)
    requires
        all_under(ps, b),
        parent_of(b) is Some,
    ensures
        all_under(ps, parent_of(b)->0),
{
    lemma_parent(b);
    assert forall|i: int| 0 <= i < ps.len() implies starts_with_path(
        #[trigger] candidate_dir(ps[i])->0,
        parent_of(b)->0,
    ) by {
        lemma_starts_with_trans(candidate_dir(ps[i])->0, b, parent_of(b)->0);
    }
}

pub(crate) proof fn lemma_all_under_prefix(ps: Seq<InputPath>, n: int, b: Seq<char>)
    requires
        0 <= n <= ps.len(),
        all_under(ps, b),
    ensures
        all_under(ps.subrange(0, n), b),
{
    assert forall|i: int| 0 <= i < n implies starts_with_path(
        #[trigger] candidate_dir(ps.subrange(0, n)[i])->0,
        b,
    ) by {
        assert(ps.subrange(0, n)[i] == ps[i]);
    }
}

/// Walking up from `b` for more paths passes where the walk for fewer paths stopped.
pub(crate) proof fn lemma_ascend_skip(b: Seq<char>, ps: Seq<InputPath>, n: int)
    requires
        0 <= n <= ps.len(),
        ascend(b, ps.subrange(0, n)) is Some,
    ensures
        ascend(b, ps) == ascend(ascend(b, ps.subrange(0, n))->0, ps),
    decreases b.len(),
{
    if !all_under(ps.subrange(0, n), b) {
        lemma_parent(b);
        if all_under(ps, b) {
            lemma_all_under_prefix(ps, n, b);
        }
        lemma_ascend_skip(parent_of(b)->0, ps, n);
    }
}

/// A walk that fails for some of the paths fails for all of them.
pub(crate) proof fn lemma_ascend_none(b: Seq<char>, ps: Seq<InputPath>, n: int)
    requires
        0 <= n <= ps.len(),
        ascend(b, ps.subrange(0, n)) is None,
    ensures
        ascend(b, ps) is None,
    decreases b.len(),
{
    if all_under(ps, b) {
        lemma_all_under_prefix(ps, n, b);
    } else if parent_of(b) is Some {
        lemma_parent(b);
        lemma_ascend_none(parent_of(b)->0, ps, n);
    }
}

} // verus!
