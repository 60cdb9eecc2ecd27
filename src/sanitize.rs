use vstd::prelude::*;

verus! {

/// `t` with every occurrence of `p`, taken from left to right without
/// overlap, replaced by `r`. An empty `p` leaves `t` as it is.
pub open spec fn replaced(t: Seq<char>, p: Seq<char>, r: Seq<char>) -> Seq<char>
    decreases t.len(),
{
    if p.len() == 0 || t.len() < p.len() {
        t
    } else if t.subrange(0, p.len() as int) == p {
        r + replaced(t.subrange(p.len() as int, t.len() as int), p, r)
    } else {
        seq![t[0]] + replaced(t.subrange(1, t.len() as int), p, r)
    }
}

/// `p` occurs in `t` at index `i`.
pub open spec fn occurs_at(t: Seq<char>, p: Seq<char>, i: int) -> bool {
    0 <= i && i + p.len() <= t.len() && t.subrange(i, i + p.len()) == p
}

/// `p` occurs somewhere in `t`.
pub open spec fn contains(t: Seq<char>, p: Seq<char>) -> bool {
    exists|i: int| occurs_at(t, p, i)
}

/// The characters of `s`, one element each.
fn chars_of(s: &str) -> (r: Vec<char>)
    ensures
        r@ == s@,
{
    let n = s.unicode_len();
    let mut r: Vec<char> = Vec::new();
    let mut i: usize = 0;
    while i < n
        invariant
            i <= n,
            n == s@.len(),
            r@ == s@.subrange(0, i as int),
        decreases n - i,
    {
        r.push(s.get_char(i));
        i = i + 1;
        assert(r@ =~= s@.subrange(0, i as int));
    }
    assert(r@ =~= s@);
    r
}

/// Whether `p` occurs in `t` at index `i`.
fn matches_at(t: &Vec<char>, p: &Vec<char>, i: usize) -> (r: bool)
    requires
        i + p@.len() <= t@.len(),
    ensures
        r == (t@.subrange(i as int, i + p@.len()) == p@),
{
    let m = p.len();
    let tn = t.len();
    let mut j: usize = 0;
    while j < m
        invariant
            j <= m,
            m == p@.len(),
            tn == t@.len(),
            i + m <= t@.len(),
            forall|k: int| 0 <= k < j ==> t@[i + k] == p@[k],
        decreases m - j,
    {
        if t[i + j] != p[j] {
            assert(t@.subrange(i as int, i + m)[j as int] != p@[j as int]);
            return false;
        }
        j = j + 1;
    }
    assert(t@.subrange(i as int, i + m) =~= p@);
    true
}

/// Rewrites captured tool output for the caller: every occurrence of
/// `absolute_path` in `text` becomes `relative_path`.
pub fn sanitize(text: &str, absolute_path: &str, relative_path: &str) -> (r: String)
    ensures
        r@ == replaced(text@, absolute_path@, relative_path@),
{
    let t = chars_of(text);
    let p = chars_of(absolute_path);
    let n = t.len();
    let m = p.len();
    if m == 0 {
        return String::from_str(text);
    }
    let ghost rs = relative_path@;
    let mut out = String::new();
    let mut last: usize = 0;
    let mut i: usize = 0;
    assert(t@.subrange(0, n as int) =~= t@);
    while i < n && m <= n - i
        invariant
            last <= i <= n,
            n == t@.len(),
            t@ == text@,
            m == p@.len(),
            p@ == absolute_path@,
            rs == relative_path@,
            m > 0,
            out@ + t@.subrange(last as int, i as int) + replaced(t@.subrange(i as int, n as int), p@, rs)
                == replaced(t@, p@, rs),
        decreases n - i,
    {
        let ghost u = t@.subrange(i as int, n as int);
        if matches_at(&t, &p, i) {
            let ghost lo = last as int;
            let ghost io = i as int;
            assert(u.subrange(0, m as int) =~= t@.subrange(io, io + m));
            assert(u.subrange(m as int, u.len() as int) =~= t@.subrange(io + m, n as int));
            assert(replaced(u, p@, rs) == rs + replaced(t@.subrange(io + m, n as int), p@, rs));
            let ghost before = out@;
            let head = text.substring_char(last, i);
            out.append(head);
            assert(out@ == before + t@.subrange(lo, io));
            out.append(relative_path);
            assert(out@ == before + t@.subrange(lo, io) + rs);
            i = i + m;
            last = i;
            assert(t@.subrange(last as int, i as int) =~= Seq::<char>::empty());
            assert(out@ + t@.subrange(last as int, i as int) + replaced(t@.subrange(i as int, n as int), p@, rs)
                =~= before + t@.subrange(lo, io) + replaced(u, p@, rs));
        } else {
            assert(u.subrange(0, m as int) =~= t@.subrange(i as int, i + m));
            assert(u.subrange(1, u.len() as int) =~= t@.subrange(i + 1, n as int));
            assert(t@.subrange(last as int, i as int) + seq![u[0]] =~= t@.subrange(last as int, i + 1));
            i = i + 1;
        }
    }
    assert(replaced(t@.subrange(i as int, n as int), p@, rs) == t@.subrange(i as int, n as int));
    let ghost before = out@;
    out.append(text.substring_char(last, n));
    assert(out@ =~= before + t@.subrange(last as int, i as int) + t@.subrange(i as int, n as int));
    out
}

/// Once a message holds the absolute path, its sanitized form holds the
/// relative path that replaced it.
pub proof fn sanitized_message_shows_relative_path(t: Seq<char>, abs: Seq<char>, rel: Seq<char>)
    requires
        abs.len() > 0,
        contains(t, abs),
    ensures
        contains(replaced(t, abs, rel), rel),
    decreases t.len(),
{
    let out = replaced(t, abs, rel);
    let i = choose|i: int| occurs_at(t, abs, i);
    if t.subrange(0, abs.len() as int) == abs {
        assert(out.subrange(0, rel.len() as int) =~= rel);
        assert(occurs_at(out, rel, 0));
    } else {
        assert(i != 0);
        let tail = t.subrange(1, t.len() as int);
        assert(tail.subrange(i - 1, i - 1 + abs.len()) =~= t.subrange(i, i + abs.len()));
        assert(occurs_at(tail, abs, i - 1));
        sanitized_message_shows_relative_path(tail, abs, rel);
        let rest = replaced(tail, abs, rel);
        let k = choose|k: int| occurs_at(rest, rel, k);
        assert(out == seq![t[0]] + rest);
        assert(out.subrange(k + 1, k + 1 + rel.len()) =~= rest.subrange(k, k + rel.len()));
        assert(occurs_at(out, rel, k + 1));
    }
}

} // verus!
