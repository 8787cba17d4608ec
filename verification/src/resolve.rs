//! Finding the directory that a request refers to.
//!
//! A request that begins with `./` is looked for under a fixed series of
//! anchor directories; any other request is taken as it stands.

use vstd::prelude::*;
use vstd::string::*;
use crate::text::texts;

verus! {

/// The directories from which a relative request is looked for.
#[derive(Debug, Clone)]
pub struct Anchors {
    /// The directory that holds the running executable, where it is known.
    pub exe_dir: Option<String>,
    /// The parent of `exe_dir`, where it has one.
    pub exe_parent: Option<String>,
    /// The current working directory.
    pub cwd: String,
    /// The parent of `cwd`, where it has one.
    pub cwd_parent: Option<String>,
}

/// A candidate path together with whether something exists there.
#[derive(Debug, Clone)]
pub struct Probed {
    pub path: String,
    pub exists: bool,
}

/// `rel` below `base`: a `rel` that starts at the root replaces `base`, an
/// empty `base` gives `rel`, and otherwise the two are put together with
/// exactly one `/` between them unless `base` already ends in one.
pub open spec fn join_path(base: Seq<char>, rel: Seq<char>) -> Seq<char> {
    if rel.len() > 0 && rel[0] == '/' {
        rel
    } else if base.len() == 0 {
        rel
    } else if base.last() == '/' {
        base + rel
    } else {
        base + seq!['/'] + rel
    }
}

/// Whether a request begins with `./`.
pub open spec fn has_sentinel(path: Seq<char>) -> bool {
    path.len() >= 2 && path[0] == '.' && path[1] == '/'
}

/// The request without its leading `./`.
pub open spec fn remainder(path: Seq<char>) -> Seq<char>
    recommends
        has_sentinel(path),
{
    path.subrange(2, path.len() as int)
}

/// `rel` directly below `dir`, then below the `dist` directory of `dir`.
pub open spec fn beside(dir: Seq<char>, rel: Seq<char>) -> Seq<Seq<char>> {
    seq![join_path(dir, rel), join_path(join_path(dir, seq!['d', 'i', 's', 't']), rel)]
}

/// The directory that stands for the executable's: its own where known, else
/// the working directory.
pub open spec fn primary_dir(anchors: Anchors) -> Seq<char> {
    match anchors.exe_dir {
        Some(d) => d@,
        None => anchors.cwd@,
    }
}

/// The parent that goes with `primary_dir`.
pub open spec fn primary_parent(anchors: Anchors) -> Option<String> {
    match anchors.exe_dir {
        Some(_) => anchors.exe_parent,
        None => anchors.cwd_parent,
    }
}

/// The candidates for a request, in the order in which they are tried: below
/// the executable's directory and its `dist`, below that directory's parent
/// and the parent's `dist`, below the working directory and its `dist`, and
/// below the working directory's parent. A request without `./` has none.
pub open spec fn candidates_of(path: Seq<char>, anchors: Anchors) -> Seq<Seq<char>> {
    if !has_sentinel(path) {
        Seq::empty()
    } else {
        let rel = remainder(path);
        beside(primary_dir(anchors), rel) + (match primary_parent(anchors) {
            Some(p) => beside(p@, rel),
            None => Seq::empty(),
        }) + beside(anchors.cwd@, rel) + (match anchors.cwd_parent {
            Some(p) => seq![join_path(p@, rel)],
            None => Seq::empty(),
        })
    }
}

/// The index of the first candidate that exists, or the number of candidates
/// where none does.
pub open spec fn first_existing(probed: Seq<Probed>) -> int
    decreases probed.len(),
{
    if probed.len() == 0 {
        0
    } else if probed[0].exists {
        0
    } else {
        1 + first_existing(probed.drop_first())
    }
}

/// The path that a request resolves to: the first candidate that exists, or
/// the request itself where there is none.
pub open spec fn resolution(path: Seq<char>, probed: Seq<Probed>) -> Seq<char> {
    let k = first_existing(probed);
    if k < probed.len() {
        probed[k].path@
    } else {
        path
    }
}

/// No candidate before the first existing one exists, and that one does.
pub proof fn lemma_first_existing(probed: Seq<Probed>)
    ensures
        0 <= first_existing(probed) <= probed.len(),
        forall|j: int| 0 <= j < first_existing(probed) ==> !(#[trigger] probed[j]).exists,
        first_existing(probed) < probed.len() ==> probed[first_existing(probed)].exists,
    decreases probed.len(),
{
    if probed.len() > 0 && !probed[0].exists {
        let rest = probed.drop_first();
        lemma_first_existing(rest);
        assert forall|j: int| 0 <= j < first_existing(probed) implies !(#[trigger] probed[j]).exists by {
            if j > 0 {
                assert(probed[j] == rest[j - 1]);
            }
        }
        if first_existing(rest) < rest.len() {
            assert(probed[first_existing(probed)] == rest[first_existing(rest)]);
        }
    }
}

/// The first existing candidate is the only index that exists with none
/// existing before it: a candidate of higher priority, where it exists, is
/// chosen before any of lower priority.
pub proof fn lemma_first_existing_unique(probed: Seq<Probed>, k: int)
    requires
        0 <= k < probed.len(),
        probed[k].exists,
        forall|j: int| 0 <= j < k ==> !(#[trigger] probed[j]).exists,
    ensures
        first_existing(probed) == k,
        forall|path: Seq<char>| resolution(path, probed) == probed[k].path@,
{
    lemma_first_existing(probed);
    let f = first_existing(probed);
    if f < k {
        assert(!probed[f].exists);
    } else if f > k {
        assert(!probed[k].exists);
    }
}

/// Where no candidate exists, the request resolves to itself.
pub proof fn lemma_resolution_fallback(path: Seq<char>, probed: Seq<Probed>)
    requires
        forall|j: int| 0 <= j < probed.len() ==> !(#[trigger] probed[j]).exists,
    ensures
        resolution(path, probed) == path,
{
    lemma_first_existing(probed);
}

/// With every anchor known, a relative request has seven candidates: the
/// four below the executable's directory and its parent come before the
/// three below the working directory and its parent.
pub proof fn lemma_candidate_order(path: Seq<char>, anchors: Anchors)
    requires
        has_sentinel(path),
        anchors.exe_dir.is_some(),
        anchors.exe_parent.is_some(),
        anchors.cwd_parent.is_some(),
    ensures
        candidates_of(path, anchors) == seq![
            join_path(anchors.exe_dir.unwrap()@, remainder(path)),
            join_path(join_path(anchors.exe_dir.unwrap()@, seq!['d', 'i', 's', 't']), remainder(path)),
            join_path(anchors.exe_parent.unwrap()@, remainder(path)),
            join_path(
                join_path(anchors.exe_parent.unwrap()@, seq!['d', 'i', 's', 't']),
                remainder(path),
            ),
            join_path(anchors.cwd@, remainder(path)),
            join_path(join_path(anchors.cwd@, seq!['d', 'i', 's', 't']), remainder(path)),
            join_path(anchors.cwd_parent.unwrap()@, remainder(path)),
        ],
{
    let rel = remainder(path);
    let dist = seq!['d', 'i', 's', 't'];
    assert(candidates_of(path, anchors) =~= seq![
        join_path(anchors.exe_dir.unwrap()@, rel),
        join_path(join_path(anchors.exe_dir.unwrap()@, dist), rel),
        join_path(anchors.exe_parent.unwrap()@, rel),
        join_path(join_path(anchors.exe_parent.unwrap()@, dist), rel),
        join_path(anchors.cwd@, rel),
        join_path(join_path(anchors.cwd@, dist), rel),
        join_path(anchors.cwd_parent.unwrap()@, rel),
    ]);
}

/// A request without `./` has no candidates, so it resolves to itself
/// whatever exists.
pub proof fn lemma_literal_request(path: Seq<char>, anchors: Anchors, probed: Seq<Probed>)
    requires
        !has_sentinel(path),
        probed.len() == candidates_of(path, anchors).len(),
    ensures
        resolution(path, probed) == path,
{
}

/// `rel` below `base`.
pub fn join(base: &str, rel: &str) -> (r: String)
    ensures
        r@ == join_path(base@, rel@),
{
    let rel_len: usize = rel.unicode_len();
    if rel_len > 0 && rel.get_char(0) == '/' {
        return String::from_str(rel);
    }
    let base_len: usize = base.unicode_len();
    if base_len == 0 {
        return String::from_str(rel);
    }
    let mut out = String::from_str(base);
    if base.get_char(base_len - 1) != '/' {
        proof {
            reveal_strlit("/");
        }
        out.append("/");
        assert("/"@ =~= seq!['/']);
    }
    out.append(rel);
    out
}

/// Whether a request begins with `./`.
pub fn is_relative_request(path: &str) -> (r: bool)
    ensures
        r == has_sentinel(path@),
{
    path.unicode_len() >= 2 && path.get_char(0) == '.' && path.get_char(1) == '/'
}

fn push_beside(out: &mut Vec<String>, dir: &str, rel: &str)
    ensures
        texts(final(out)@) == texts(old(out)@) + beside(dir@, rel@),
{
    proof {
        reveal_strlit("dist");
    }
    assert("dist"@ =~= seq!['d', 'i', 's', 't']);
    let direct = join(dir, rel);
    let dist = join(dir, "dist");
    let nested = join(dist.as_str(), rel);
    out.push(direct);
    out.push(nested);
    assert(texts(out@) =~= texts(old(out)@) + beside(dir@, rel@));
}

/// The candidates for a request, in the order in which they are to be tried.
pub fn candidate_paths(path: &str, anchors: &Anchors) -> (r: Vec<String>)
    ensures
        texts(r@) == candidates_of(path@, *anchors),
{
    let mut out: Vec<String> = Vec::new();
    if !is_relative_request(path) {
        assert(texts(out@) =~= Seq::empty());
        return out;
    }
    let n: usize = path.unicode_len();
    let rel = path.substring_char(2, n);
    assert(texts(out@) =~= Seq::empty());
    let (primary, parent) = match &anchors.exe_dir {
        Some(d) => (d, &anchors.exe_parent),
        None => (&anchors.cwd, &anchors.cwd_parent),
    };
    push_beside(&mut out, primary.as_str(), rel);
    match parent {
        Some(p) => push_beside(&mut out, p.as_str(), rel),
        None => {},
    }
    push_beside(&mut out, anchors.cwd.as_str(), rel);
    match &anchors.cwd_parent {
        Some(p) => {
            let ghost before = out@;
            let last = join(p.as_str(), rel);
            out.push(last);
            assert(texts(out@) =~= texts(before) + seq![join_path(p@, rel@)]);
        },
        None => {},
    }
    assert(texts(out@) =~= candidates_of(path@, *anchors));
    out
}

/// The path that a request resolves to, given its candidates in order and
/// whether each exists.
pub fn resolve_directory(path: &str, probed: &Vec<Probed>) -> (r: String)
    ensures
        r@ == resolution(path@, probed@),
{
    let mut i: usize = 0;
    assert(probed@.skip(0) =~= probed@);
    while i < probed.len()
        invariant
            i <= probed@.len(),
            first_existing(probed@) == i + first_existing(probed@.skip(i as int)),
        decreases probed@.len() - i,
    {
        assert(probed@.skip(i as int)[0] == probed@[i as int]);
        if probed[i].exists {
            return probed[i].path.clone();
        }
        assert(probed@.skip(i as int).drop_first() =~= probed@.skip(i + 1));
        i += 1;
    }
    String::from_str(path)
}

} // verus!
