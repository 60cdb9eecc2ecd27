use vstd::prelude::*;

use crate::status::Status;

verus! {

/// Index of the last occurrence of `c` in `s`, or -1 when there is none.
pub open spec fn last_index_of(s: Seq<char>, c: char) -> int
    decreases s.len(),
{
    if s.len() == 0 {
        -1
    } else if s.last() == c {
        s.len() - 1
    } else {
        last_index_of(s.drop_last(), c)
    }
}

/// The extension of a path: what follows its last `.`, empty without one.
pub open spec fn extension_spec(p: Seq<char>) -> Seq<char> {
    let k = last_index_of(p, '.');
    if k < 0 {
        Seq::empty()
    } else {
        p.subrange(k + 1, p.len() as int)
    }
}

/// The path with what follows its last `.` replaced by `ext`.
pub open spec fn with_extension_spec(p: Seq<char>, ext: Seq<char>) -> Seq<char> {
    p.subrange(0, last_index_of(p, '.') + 1) + ext
}

/// The last segment of a `/`-separated path.
pub open spec fn file_name_spec(p: Seq<char>) -> Seq<char> {
    p.subrange(last_index_of(p, '/') + 1, p.len() as int)
}

/// `p` has a `..` segment at index `i`.
pub open spec fn parent_segment_at(p: Seq<char>, i: int) -> bool {
    &&& 0 <= i
    &&& i + 2 <= p.len()
    &&& p[i] == '.'
    &&& p[i + 1] == '.'
    &&& (i == 0 || p[i - 1] == '/')
    &&& (i + 2 == p.len() || p[i + 2] == '/')
}

pub open spec fn has_parent_segment(p: Seq<char>) -> bool {
    exists|i: int| parent_segment_at(p, i)
}

/// A relative path that stays below the directory it is joined to: not
/// empty, not absolute, and without `..` segments.
pub open spec fn valid_relative(p: Seq<char>) -> bool {
    &&& p.len() > 0
    &&& p[0] != '/'
    &&& !has_parent_segment(p)
}

/// `root` and `p` joined by one separator.
pub open spec fn joined(root: Seq<char>, p: Seq<char>) -> Seq<char> {
    root + seq!['/'] + p
}

/// `path` lies below `root`.
pub open spec fn is_descendant(path: Seq<char>, root: Seq<char>) -> bool {
    exists|tail: Seq<char>| valid_relative(tail) && path == #[trigger] joined(root, tail)
}

proof fn lemma_last_index_bounds(s: Seq<char>, c: char)
    ensures
        -1 <= last_index_of(s, c) < s.len(),
        last_index_of(s, c) >= 0 ==> s[last_index_of(s, c)] == c,
        forall|j: int| last_index_of(s, c) < j < s.len() ==> s[j] != c,
    decreases s.len(),
{
    if s.len() > 0 && s.last() != c {
        lemma_last_index_bounds(s.drop_last(), c);
        assert forall|j: int| last_index_of(s, c) < j < s.len() implies s[j] != c by {
            if j < s.len() - 1 {
                assert(s.drop_last()[j] == s[j]);
            }
        }
    }
}

/// One past the index of the last occurrence of `c` in `s`.
fn end_of_last(s: &str, c: char) -> (r: Option<usize>)
    ensures
        match r {
            Some(e) => e == last_index_of(s@, c) + 1 && last_index_of(s@, c) >= 0,
            None => last_index_of(s@, c) == -1,
        },
{
    let n = s.unicode_len();
    let mut i: usize = n;
    assert(s@.subrange(0, n as int) =~= s@);
    while i > 0
        invariant
            i <= n,
            n == s@.len(),
            last_index_of(s@, c) == last_index_of(s@.subrange(0, i as int), c),
        decreases i,
    {
        assert(s@.subrange(0, i as int).drop_last() =~= s@.subrange(0, i - 1));
        if s.get_char(i - 1) == c {
            return Some(i);
        }
        i = i - 1;
    }
    None
}

/// The end of what stays of `s` when what follows the last `c` is cut off.
fn cut_after_last(s: &str, c: char) -> (r: usize)
    ensures
        r == last_index_of(s@, c) + 1,
        r <= s@.len(),
{
    proof {
        lemma_last_index_bounds(s@, c);
    }
    match end_of_last(s, c) {
        Some(e) => e,
        None => 0,
    }
}

/// The extension of `path`: what follows its last `.`, or an empty string
/// when it has none.
pub fn extension_of(path: &str) -> (r: String)
    ensures
        r@ == extension_spec(path@),
{
    proof {
        lemma_last_index_bounds(path@, '.');
    }
    match end_of_last(path, '.') {
        None => String::new(),
        Some(k) => {
            let n = path.unicode_len();
            String::from_str(path.substring_char(k, n))
        },
    }
}

/// `path` with its extension replaced by `ext`.
pub fn with_extension(path: &str, ext: &str) -> (r: String)
    ensures
        r@ == with_extension_spec(path@, ext@),
{
    let k = cut_after_last(path, '.');
    let mut r = String::from_str(path.substring_char(0, k));
    r.append(ext);
    r
}

/// The last segment of a `/`-separated path.
pub fn file_name_of(path: &str) -> (r: String)
    ensures
        r@ == file_name_spec(path@),
{
    let k = cut_after_last(path, '/');
    let n = path.unicode_len();
    String::from_str(path.substring_char(k, n))
}

/// Whether `p` holds a `..` segment.
fn holds_parent_segment(p: &str) -> (r: bool)
    ensures
        r == has_parent_segment(p@),
{
    let n = p.unicode_len();
    let mut i: usize = 0;
    while n >= 2 && i <= n - 2
        invariant
            n == p@.len(),
            i <= n,
            forall|j: int| 0 <= j < i ==> !parent_segment_at(p@, j),
        decreases n - i,
    {
        if p.get_char(i) == '.' && p.get_char(i + 1) == '.' && (i == 0 || p.get_char(i - 1)
            == '/') && (i + 2 == n || p.get_char(i + 2) == '/') {
            assert(parent_segment_at(p@, i as int));
            return true;
        }
        i = i + 1;
    }
    false
}

/// Joins a caller-supplied relative path below `root`. A path that is empty,
/// absolute, or holds a `..` segment is refused with `InvalidPath`.
pub fn resolve(relative_path: &str, root: &str) -> (r: Result<String, Status>)
    ensures
        valid_relative(relative_path@) <==> r is Ok,
        r is Ok ==> r->Ok_0@ == joined(root@, relative_path@),
        r is Ok ==> is_descendant(r->Ok_0@, root@),
        r is Err ==> r->Err_0 == Status::InvalidPath,
{
    let n = relative_path.unicode_len();
    if n == 0 || relative_path.get_char(0) == '/' || holds_parent_segment(relative_path) {
        return Err(Status::InvalidPath);
    }
    let mut r = String::from_str(root);
    r.append("/");
    r.append(relative_path);
    proof {
        reveal_strlit("/");
        assert(r@ =~= joined(root@, relative_path@));
    }
    Ok(r)
}

} // verus!
