//! Path-level rules: a candidate path must stay inside the working
//! directory after lexical normalisation. The filesystem is never touched
//! and the path need not exist.
//!
//! Paths follow Unix conventions: `/` separates components, a leading `/`
//! is the root, empty and `.` components are dropped (a leading `.` of a
//! relative path is kept), and `..` names the parent directory.

use vstd::prelude::*;
use crate::policy::{outcome, PolicyError, Rejection};
use crate::text::{chars_eq, chars_of, views};

verus! {

pub open spec fn is_rooted(p: Seq<char>) -> bool {
    p.len() > 0 && p[0] == '/'
}

/// The text between separators, including empty pieces; never empty.
pub open spec fn segments(p: Seq<char>) -> Seq<Seq<char>>
    decreases p.len(),
{
    if p.len() == 0 {
        seq![Seq::<char>::empty()]
    } else {
        let prev = segments(p.drop_last());
        if p.last() == '/' {
            prev.push(Seq::<char>::empty())
        } else {
            prev.update(prev.len() - 1, prev.last().push(p.last()))
        }
    }
}

/// Whether a segment is a component: it is not empty, and it is not `.`
/// unless it is the very first segment.
pub open spec fn is_kept(s: Seq<char>, first: bool) -> bool {
    s.len() > 0 && (s != seq!['.'] || first)
}

pub open spec fn kept_segments(segs: Seq<Seq<char>>) -> Seq<Seq<char>>
    decreases segs.len(),
{
    if segs.len() == 0 {
        Seq::empty()
    } else {
        let prev = kept_segments(segs.drop_last());
        if is_kept(segs.last(), segs.len() == 1) {
            prev.push(segs.last())
        } else {
            prev
        }
    }
}

pub open spec fn root_component(p: Seq<char>) -> Seq<Seq<char>> {
    if is_rooted(p) {
        seq![seq!['/']]
    } else {
        Seq::empty()
    }
}

/// The components of a path: `/` for the root, `.` for a leading current
/// directory, `..` for a parent, and the names in between.
pub open spec fn components(p: Seq<char>) -> Seq<Seq<char>> {
    root_component(p) + kept_segments(segments(p))
}

/// Lexical normalisation over components: `.` is dropped, `..` removes the
/// last pushed component unless only the root (or nothing) is left, and any
/// other component is appended.
pub open spec fn normalise_components(cs: Seq<Seq<char>>) -> Seq<Seq<char>>
    decreases cs.len(),
{
    if cs.len() == 0 {
        Seq::empty()
    } else {
        let out = normalise_components(cs.drop_last());
        let c = cs.last();
        if c == seq!['.'] {
            out
        } else if c == seq!['.', '.'] {
            if out.len() > 0 && out.last() != seq!['/'] {
                out.drop_last()
            } else {
                out
            }
        } else {
            out.push(c)
        }
    }
}

/// `p` resolved against `wd`: an absolute `p` as it is, otherwise `p`
/// appended to `wd` with one separator between them.
pub open spec fn joined(wd: Seq<char>, p: Seq<char>) -> Seq<char> {
    if is_rooted(p) || wd.len() == 0 {
        p
    } else if wd.last() == '/' {
        wd + p
    } else {
        wd + seq!['/'] + p
    }
}

pub open spec fn is_prefix<T>(a: Seq<T>, b: Seq<T>) -> bool {
    a.len() <= b.len() && b.subrange(0, a.len() as int) == a
}

/// `path`, resolved against `wd` and normalised, starts with the
/// components of `wd`.
pub open spec fn confined(path: Seq<char>, wd: Seq<char>) -> bool {
    is_prefix(components(wd), normalise_components(components(joined(wd, path))))
}

pub open spec fn confinement_rejection(path: Seq<char>, wd: Seq<char>) -> Option<Rejection> {
    if confined(path, wd) {
        None
    } else {
        Some(Rejection::Escape(path))
    }
}

proof fn lemma_segments_nonempty(p: Seq<char>)
    ensures
        segments(p).len() >= 1,
    decreases p.len(),
{
    if p.len() > 0 {
        lemma_segments_nonempty(p.drop_last());
    }
}

fn join_chars(wd: &Vec<char>, p: &Vec<char>) -> (r: Vec<char>)
    ensures
        r@ == joined(wd@, p@),
{
    if (p.len() > 0 && p[0] == '/') || wd.len() == 0 {
        return p.clone();
    }
    let mut out: Vec<char> = wd.clone();
    if wd[wd.len() - 1] != '/' {
        out.push('/');
    }
    let ghost base = out@;
    let mut i: usize = 0;
    while i < p.len()
        invariant
            i <= p@.len(),
            out@ == base + p@.subrange(0, i as int),
        decreases p@.len() - i,
    {
        out.push(p[i]);
        i = i + 1;
        assert(out@ =~= base + p@.subrange(0, i as int));
    }
    assert(p@.subrange(0, p@.len() as int) =~= p@);
    assert(wd@ + seq!['/'] + p@ =~= wd@.push('/') + p@);
    out
}

pub(crate) fn is_single(c: &Vec<char>, ch: char) -> (r: bool)
    ensures
        r == (c@ == seq![ch]),
{
    if c.len() == 1 && c[0] == ch {
        assert(c@ =~= seq![ch]);
        true
    } else {
        false
    }
}

pub(crate) fn is_parent(c: &Vec<char>) -> (r: bool)
    ensures
        r == (c@ == seq!['.', '.']),
{
    if c.len() == 2 && c[0] == '.' && c[1] == '.' {
        assert(c@ =~= seq!['.', '.']);
        true
    } else {
        false
    }
}

pub(crate) fn components_of(p: &Vec<char>) -> (r: Vec<Vec<char>>)
    ensures
        views(r@) == components(p@),
{
    let mut out: Vec<Vec<char>> = Vec::new();
    if p.len() > 0 && p[0] == '/' {
        let mut root: Vec<char> = Vec::new();
        root.push('/');
        assert(root@ =~= seq!['/']);
        out.push(root);
    }
    assert(views(out@) =~= root_component(p@));
    let mut cur: Vec<char> = Vec::new();
    let mut first: bool = true;
    let mut i: usize = 0;
    assert(p@.subrange(0, 0) =~= Seq::<char>::empty());
    while i < p.len()
        invariant
            i <= p@.len(),
            segments(p@.subrange(0, i as int)).len() >= 1,
            cur@ == segments(p@.subrange(0, i as int)).last(),
            first == (segments(p@.subrange(0, i as int)).len() == 1),
            views(out@) == root_component(p@) + kept_segments(
                segments(p@.subrange(0, i as int)).drop_last(),
            ),
        decreases p@.len() - i,
    {
        let ghost q = p@.subrange(0, i as int);
        let ghost q2 = p@.subrange(0, i + 1);
        assert(q2.drop_last() =~= q);
        let c = p[i];
        proof {
            lemma_segments_nonempty(q2);
        }
        if c == '/' {
            let ghost segs = segments(q);
            assert(segments(q2).drop_last() =~= segs);
            assert(segs.drop_last().len() + 1 == segs.len());
            let ghost before = views(out@);
            if cur.len() > 0 && (!is_single(&cur, '.') || first) {
                out.push(cur);
                assert(views(out@) =~= before.push(segs.last()));
            }
            assert(views(out@) =~= root_component(p@) + kept_segments(segs));
            cur = Vec::new();
            first = false;
        } else {
            assert(segments(q2).drop_last() =~= segments(q).drop_last());
            cur.push(c);
        }
        i = i + 1;
    }
    assert(p@.subrange(0, p@.len() as int) =~= p@);
    let ghost segs = segments(p@);
    let ghost before = views(out@);
    if cur.len() > 0 && (!is_single(&cur, '.') || first) {
        out.push(cur);
        assert(views(out@) =~= before.push(segs.last()));
    }
    assert(views(out@) =~= root_component(p@) + kept_segments(segs));
    out
}

/// Collapses `.` and `..` components without touching the filesystem.
fn normalise(cs: &Vec<Vec<char>>) -> (r: Vec<Vec<char>>)
    ensures
        views(r@) == normalise_components(views(cs@)),
{
    let mut out: Vec<Vec<char>> = Vec::new();
    let mut i: usize = 0;
    while i < cs.len()
        invariant
            i <= cs@.len(),
            views(out@) == normalise_components(views(cs@).subrange(0, i as int)),
        decreases cs@.len() - i,
    {
        let ghost prev = views(cs@).subrange(0, i as int);
        assert(views(cs@).subrange(0, i + 1).drop_last() =~= prev);
        let c = &cs[i];
        let ghost before = views(out@);
        if is_single(c, '.') {
        } else if is_parent(c) {
            if out.len() > 0 && !is_single(&out[out.len() - 1], '/') {
                out.pop();
                assert(views(out@) =~= before.drop_last());
            }
        } else {
            out.push(c.clone());
            assert(views(out@) =~= before.push(c@));
        }
        i = i + 1;
    }
    assert(views(cs@).subrange(0, cs@.len() as int) =~= views(cs@));
    out
}

fn starts_with_components(a: &Vec<Vec<char>>, base: &Vec<Vec<char>>) -> (r: bool)
    ensures
        r == is_prefix(views(base@), views(a@)),
{
    if base.len() > a.len() {
        return false;
    }
    let mut i: usize = 0;
    while i < base.len()
        invariant
            base@.len() <= a@.len(),
            i <= base@.len(),
            forall|k: int| 0 <= k < i ==> views(a@)[k] == views(base@)[k],
        decreases base@.len() - i,
    {
        if !chars_eq(&a[i], &base[i]) {
            assert(views(a@).subrange(0, base@.len() as int)[i as int] != views(base@)[i as int]);
            return false;
        }
        i = i + 1;
    }
    assert(views(a@).subrange(0, base@.len() as int) =~= views(base@));
    true
}

/// Rejects `path` when, resolved against `working_dir` and lexically
/// normalised, it does not stay inside `working_dir` (compared component by
/// component, not as text).
pub fn check_confinement(path: &str, working_dir: &str) -> (r: Result<(), PolicyError>)
    ensures
        outcome(r) == confinement_rejection(path@, working_dir@),
{
    let p = chars_of(path);
    let wd = chars_of(working_dir);
    let absolute = join_chars(&wd, &p);
    let normalised = normalise(&components_of(&absolute));
    if !starts_with_components(&normalised, &components_of(&wd)) {
        return Err(PolicyError::PathEscape(path.to_owned()));
    }
    Ok(())
}

} // verus!
