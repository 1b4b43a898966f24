use vstd::prelude::*;
use vstd::string::*;

use crate::error::ToolError;

verus! {

/// The separator that archive entry names use.
pub open spec fn archive_sep() -> char {
    '\\'
}

/// The separator that normalized names and host paths use.
pub open spec fn host_sep() -> char {
    '/'
}

/// An entry name with every archive separator replaced by the host separator.
pub open spec fn normalized(s: Seq<char>) -> Seq<char> {
    s.map_values(|c: char| if c == archive_sep() { host_sep() } else { c })
}

/// Replaces every `\` in an archive entry name by `/`.
pub fn normalize(name: &str) -> (r: String)
    ensures
        r@ == normalized(name@),
{
    let n = name.unicode_len();
    let mut out = String::new();
    let mut i: usize = 0;
    proof {
        reveal_strlit("/");
    }
    while i < n
        invariant
            n == name@.len(),
            i <= n,
            out@ == normalized(name@.subrange(0, i as int)),
            "/"@ == seq![host_sep()],
        decreases n - i,
    {
        let c = name.get_char(i);
        if c == '\\' {
            out.append("/");
        } else {
            out.append(name.substring_char(i, i + 1));
        }
        assert(normalized(name@.subrange(0, i + 1)) =~= normalized(name@.subrange(0, i as int)).push(
            if c == archive_sep() { host_sep() } else { c },
        ));
        i += 1;
    }
    assert(name@.subrange(0, n as int) =~= name@);
    out
}

} // verus!

verus! {

/// Normalized names hold no archive separator.
pub proof fn lemma_normalized_has_no_archive_sep(s: Seq<char>)
    ensures
        forall|i: int| 0 <= i < normalized(s).len() ==> normalized(s)[i] != archive_sep(),
{
}

/// Normalizing a normalized name changes nothing.
pub proof fn lemma_normalize_idempotent(s: Seq<char>)
    ensures
        normalized(normalized(s)) == normalized(s),
{
    assert(normalized(normalized(s)) =~= normalized(s));
}

/// A `..` segment starts at index `i` of path `p`.
pub open spec fn parent_at(p: Seq<char>, i: int) -> bool {
    &&& 0 <= i
    &&& i + 2 <= p.len()
    &&& p[i] == '.'
    &&& p[i + 1] == '.'
    &&& (i == 0 || p[i - 1] == host_sep())
    &&& (i + 2 == p.len() || p[i + 2] == host_sep())
}

/// Path `p` has a parent-directory segment.
pub open spec fn has_parent_segment(p: Seq<char>) -> bool {
    exists|i: int| parent_at(p, i)
}

/// Whether a normalized path holds a `..` segment.
pub fn contains_parent_segment(p: &str) -> (r: bool)
    ensures
        r == has_parent_segment(p@),
{
    let n = p.unicode_len();
    let mut i: usize = 0;
    while i < n
        invariant
            n == p@.len(),
            i <= n,
            forall|j: int| 0 <= j < i ==> !parent_at(p@, j),
        decreases n - i,
    {
        if n - i >= 2 && p.get_char(i) == '.' && p.get_char(i + 1) == '.' && (i == 0 || p.get_char(
            i - 1,
        ) == '/') && (i + 2 == n || p.get_char(i + 2) == '/') {
            assert(parent_at(p@, i as int));
            return true;
        }
        i += 1;
    }
    false
}

/// `p` appended to directory `root`, with one separator between them.
pub open spec fn joined(root: Seq<char>, p: Seq<char>) -> Seq<char> {
    if root.len() == 0 {
        p
    } else if root.last() == host_sep() {
        root + p
    } else {
        root + seq![host_sep()] + p
    }
}

/// Where normalized path `p` lands under `root`; none when it holds a
/// parent-directory segment.
pub open spec fn host_path(p: Seq<char>, root: Seq<char>) -> Option<Seq<char>> {
    if has_parent_segment(p) {
        None
    } else {
        Some(joined(root, p))
    }
}

/// `h` lies under directory `root`: it starts with `root` at a segment
/// boundary and what follows has no parent-directory segment.
pub open spec fn descends_from(h: Seq<char>, root: Seq<char>) -> bool {
    &&& root.len() <= h.len()
    &&& h.subrange(0, root.len() as int) == root
    &&& (root.len() == 0 || root.last() == host_sep() || (h.len() > root.len() && h[root.len() as int]
        == host_sep()))
    &&& !has_parent_segment(h.subrange(root.len() as int, h.len() as int))
}

proof fn lemma_leading_sep_keeps_segments(p: Seq<char>)
    ensures
        has_parent_segment(seq![host_sep()] + p) == has_parent_segment(p),
{
    let q = seq![host_sep()] + p;
    if has_parent_segment(p) {
        let i = choose|i: int| parent_at(p, i);
        assert(parent_at(q, i + 1));
    }
    if has_parent_segment(q) {
        let i = choose|i: int| parent_at(q, i);
        assert(i != 0);
        assert(parent_at(p, i - 1));
    }
}

/// A path without parent-directory segments joins to a descendant of the
/// root; one with such a segment is refused.
pub proof fn lemma_host_path_within_root(p: Seq<char>, root: Seq<char>)
    ensures
        !has_parent_segment(p) ==> (host_path(p, root) matches Some(h) && descends_from(h, root)),
        has_parent_segment(p) ==> host_path(p, root) is None,
{
    if !has_parent_segment(p) {
        let h = joined(root, p);
        if root.len() == 0 {
            assert(h.subrange(0, 0) =~= root);
            assert(h.subrange(0, h.len() as int) =~= p);
        } else if root.last() == host_sep() {
            assert(h.subrange(0, root.len() as int) =~= root);
            assert(h.subrange(root.len() as int, h.len() as int) =~= p);
        } else {
            assert(h.subrange(0, root.len() as int) =~= root);
            assert(h.subrange(root.len() as int, h.len() as int) =~= seq![host_sep()] + p);
            lemma_leading_sep_keeps_segments(p);
        }
    }
}

/// Joins normalized path `p` onto `root`, refusing a path with a `..`
/// segment.
pub fn to_host_path(p: &str, root: &str) -> (r: Result<String, ToolError>)
    ensures
        match r {
            Ok(h) => host_path(p@, root@) == Some(h@),
            Err(e) => host_path(p@, root@) is None && e.escaped_path() == Some(p@),
        },
{
    if contains_parent_segment(p) {
        return Err(ToolError::PathEscape { path: String::from_str(p) });
    }
    let n = root.unicode_len();
    let mut out = String::from_str(root);
    proof {
        reveal_strlit("/");
    }
    if n > 0 && root.get_char(n - 1) != '/' {
        out.append("/");
    }
    out.append(p);
    assert(out@ =~= joined(root@, p@));
    Ok(out)
}

} // verus!
