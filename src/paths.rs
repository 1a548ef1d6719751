//! Relative paths inside a base directory: which are safe, how they join,
//! and their last segment, directory and extension.

use vstd::prelude::*;
use vstd::string::StrSliceExecFns;
use vstd::string::StringExecFns;
use crate::text::chars_of;

verus! {

/// Whether position `i` of `p` begins a segment.
pub open spec fn seg_start(p: Seq<char>, i: int) -> bool {
    i == 0 || p[i - 1] == '/'
}

/// Whether position `i` of `p` ends a segment.
pub open spec fn seg_end(p: Seq<char>, i: int) -> bool {
    i == p.len() || p[i] == '/'
}

/// No segment that begins at `i` is empty, `.` or `..`.
pub open spec fn segment_ok_at(p: Seq<char>, i: int) -> bool {
    seg_start(p, i) ==> {
        &&& !seg_end(p, i)
        &&& p[i] == '.' ==> !seg_end(p, i + 1) && (p[i + 1] == '.' ==> !seg_end(p, i + 2))
    }
}

/// A path that stays inside the directory it is joined to: one or more
/// segments separated by `/`, none of them empty, `.` or `..`. It cannot
/// begin with `/`, so it is never absolute.
pub open spec fn is_safe_relative(p: Seq<char>) -> bool {
    &&& p.len() > 0
    &&& forall|i: int| 0 <= i <= p.len() ==> #[trigger] segment_ok_at(p, i)
}

/// `rel` placed under `base`, with one separator between them.
pub open spec fn join(base: Seq<char>, rel: Seq<char>) -> Seq<char> {
    if base.len() == 0 {
        rel
    } else if base.last() == '/' {
        base + rel
    } else {
        base + seq!['/'] + rel
    }
}

/// The position of the last `c` of `p`, or -1 where it has none.
pub open spec fn last_of(p: Seq<char>, c: char) -> int
    decreases p.len(),
{
    if p.len() == 0 {
        -1
    } else if p.last() == c {
        p.len() - 1
    } else {
        last_of(p.drop_last(), c)
    }
}

/// The position of the last `/` of `p`, or -1 where it has none.
pub open spec fn last_sep(p: Seq<char>) -> int {
    last_of(p, '/')
}

/// The last segment of `p`.
pub open spec fn base_name(p: Seq<char>) -> Seq<char> {
    p.subrange(last_sep(p) + 1, p.len() as int)
}

/// The extension of the last segment of `p`: the text after that
/// segment's last `.`, where this `.` is not its first character and the
/// segment is not `..`.
pub open spec fn extension_of(p: Seq<char>) -> Option<Seq<char>> {
    let b = base_name(p);
    let d = last_of(b, '.');
    if d <= 0 || b == seq!['.', '.'] {
        None
    } else {
        Some(b.subrange(d + 1, b.len() as int))
    }
}

/// The directory that holds `rel` once it is placed under `base`.
pub open spec fn dir_of(base: Seq<char>, rel: Seq<char>) -> Seq<char> {
    if last_sep(rel) < 0 {
        base
    } else {
        join(base, rel.subrange(0, last_sep(rel)))
    }
}

pub proof fn lemma_last_of_bounds(p: Seq<char>, c: char)
    ensures
        -1 <= last_of(p, c) < p.len(),
        last_of(p, c) >= 0 ==> p[last_of(p, c)] == c,
        forall|j: int| last_of(p, c) < j < p.len() ==> p[j] != c,
    decreases p.len(),
{
    if p.len() > 0 && p.last() != c {
        lemma_last_of_bounds(p.drop_last(), c);
        assert forall|j: int| last_of(p, c) < j < p.len() implies p[j] != c by {
            if j < p.len() - 1 {
                assert(p.drop_last()[j] == p[j]);
            }
        }
    }
}

/// Whether `p` is a path that stays inside the directory it is joined to.
pub fn safe_relative(p: &str) -> (r: bool)
    ensures
        r == is_safe_relative(p@),
{
    let x = chars_of(p);
    let n = x.len();
    if n == 0 {
        return false;
    }
    if x[n - 1] == '/' {
        assert(!segment_ok_at(p@, n as int));
        return false;
    }
    assert(segment_ok_at(p@, n as int));
    let mut i: usize = 0;
    while i < n
        invariant
            x@ == p@,
            n == x.len(),
            n > 0,
            segment_ok_at(p@, n as int),
            forall|j: int| 0 <= j < i ==> #[trigger] segment_ok_at(p@, j),
        decreases n - i,
    {
        let starts = i == 0 || x[i - 1] == '/';
        if starts {
            if x[i] == '/' {
                assert(!segment_ok_at(p@, i as int));
                return false;
            }
            if x[i] == '.' {
                if i + 1 == n || x[i + 1] == '/' {
                    assert(!segment_ok_at(p@, i as int));
                    return false;
                }
                if x[i + 1] == '.' && (i + 2 == n || x[i + 2] == '/') {
                    assert(!segment_ok_at(p@, i as int));
                    return false;
                }
            }
        }
        assert(segment_ok_at(p@, i as int));
        i = i + 1;
    }
    true
}

/// `rel` placed under `base`.
pub fn join_path(base: &str, rel: &str) -> (r: String)
    ensures
        r@ == join(base@, rel@),
{
    let n = base.unicode_len();
    if n == 0 {
        String::from_str(rel)
    } else if base.get_char(n - 1) == '/' {
        String::from_str(base).concat(rel)
    } else {
        proof {
            reveal_strlit("/");
        }
        let r = String::from_str(base).concat("/").concat(rel);
        assert(r@ =~= base@ + seq!['/'] + rel@);
        r
    }
}

/// The position of the last `c` of `p`, if any.
pub fn find_last(p: &str, c: char) -> (r: Option<usize>)
    ensures
        match r {
            Some(k) => last_of(p@, c) == k as int,
            None => last_of(p@, c) == -1,
        },
{
    let x = chars_of(p);
    let mut i: usize = x.len();
    assert(p@.subrange(0, i as int) =~= p@);
    while i > 0 && x[i - 1] != c
        invariant
            x@ == p@,
            i <= x.len(),
            last_of(p@, c) == last_of(p@.subrange(0, i as int), c),
        decreases i,
    {
        assert(p@.subrange(0, i as int).drop_last() =~= p@.subrange(0, i - 1));
        i = i - 1;
    }
    if i == 0 {
        None
    } else {
        Some(i - 1)
    }
}

/// The last segment of `p`.
pub fn file_name_of(p: &str) -> (r: String)
    ensures
        r@ == base_name(p@),
{
    proof {
        lemma_last_of_bounds(p@, '/');
    }
    let n = p.unicode_len();
    match find_last(p, '/') {
        Some(k) => String::from_str(p.substring_char(k + 1, n)),
        None => String::from_str(p.substring_char(0, n)),
    }
}

/// The directory that holds `rel` once it is placed under `base`.
pub fn parent_dir(base: &str, rel: &str) -> (r: String)
    ensures
        r@ == dir_of(base@, rel@),
{
    proof {
        lemma_last_of_bounds(rel@, '/');
    }
    match find_last(rel, '/') {
        Some(k) => join_path(base, rel.substring_char(0, k)),
        None => String::from_str(base),
    }
}

/// The extension of the last segment of `p`, if it has one.
pub fn extension(p: &str) -> (r: Option<String>)
    ensures
        match r {
            Some(e) => extension_of(p@) == Some(e@),
            None => extension_of(p@) is None,
        },
{
    let b = file_name_of(p);
    proof {
        lemma_last_of_bounds(b@, '.');
    }
    let n = b.as_str().unicode_len();
    match find_last(b.as_str(), '.') {
        None => None,
        Some(d) => {
            if d == 0 {
                return None;
            }
            if n == 2 && b.as_str().get_char(0) == '.' {
                assert(b@ =~= seq!['.', '.']);
                return None;
            }
            assert(b@ != seq!['.', '.']) by {
                if b@ == seq!['.', '.'] {
                    assert(b@[0] == '.');
                }
            }
            Some(String::from_str(b.as_str().substring_char(d + 1, n)))
        },
    }
}

} // verus!
