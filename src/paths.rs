use vstd::prelude::*;

verus! {

/// The path of `path` relative to `root`, when it lies under it. Paths are
/// `/`-separated; `root` must be followed in `path` by a separator or by
/// nothing, unless `root` is empty or already ends in a separator.
pub open spec fn relative_to(root: Seq<char>, path: Seq<char>) -> Option<Seq<char>> {
    if root.len() <= path.len() && path.take(root.len() as int) == root {
        let rest = path.skip(root.len() as int);
        if root.len() == 0 || root.last() == '/' {
            Some(rest)
        } else if rest.len() == 0 {
            Some(rest)
        } else if rest[0] == '/' {
            Some(rest.skip(1))
        } else {
            None
        }
    } else {
        None
    }
}

/// The index of the last separator in `p`, or -1 when it has none.
pub open spec fn last_separator(p: Seq<char>) -> int
    decreases p.len(),
{
    if p.len() == 0 {
        -1
    } else if p.last() == '/' {
        p.len() - 1
    } else {
        last_separator(p.drop_last())
    }
}

/// The parent directory of a path: trailing separators are ignored, then
/// everything before the last separator is kept (`/` itself for a path just
/// below it). A single component has the empty path as parent; the empty
/// path and `/` have none.
pub open spec fn parent_of(p: Seq<char>) -> Option<Seq<char>>
    decreases p.len(),
{
    if p.len() == 0 {
        None
    } else if p.len() > 1 && p.last() == '/' {
        parent_of(p.drop_last())
    } else if p.len() == 1 && p[0] == '/' {
        None
    } else if last_separator(p) < 0 {
        Some(Seq::empty())
    } else if last_separator(p) == 0 {
        Some(seq!['/'])
    } else {
        Some(p.take(last_separator(p)))
    }
}

/// The ancestor `k` levels above `p`: `p` itself for `k == 0`.
pub open spec fn ancestor(p: Seq<char>, k: nat) -> Option<Seq<char>>
    decreases k,
{
    if k == 0 {
        Some(p)
    } else {
        match ancestor(p, (k - 1) as nat) {
            Some(q) => parent_of(q),
            None => None,
        }
    }
}

proof fn lemma_last_separator_bounds(p: Seq<char>)
    ensures
        -1 <= last_separator(p) < p.len(),
        last_separator(p) >= 0 ==> p[last_separator(p)] == '/',
    decreases p.len(),
{
    if p.len() > 0 && p.last() != '/' {
        lemma_last_separator_bounds(p.drop_last());
    }
}

/// Whether `p` starts with `prefix`.
fn starts_with(p: &str, prefix: &str) -> (r: bool)
    ensures
        r == (prefix@.len() <= p@.len() && p@.take(prefix@.len() as int) == prefix@),
{
    let n = prefix.unicode_len();
    if n > p.unicode_len() {
        return false;
    }
    let mut i: usize = 0;
    while i < n
        invariant
            n == prefix@.len(),
            n <= p@.len(),
            i <= n,
            forall|j: int| 0 <= j < i ==> p@[j] == prefix@[j],
        decreases n - i,
    {
        if p.get_char(i) != prefix.get_char(i) {
            assert(p@.take(n as int)[i as int] != prefix@[i as int]);
            return false;
        }
        i = i + 1;
    }
    assert(p@.take(n as int) =~= prefix@);
    true
}

/// The path of `path` relative to `root`, or `None` when it does not lie
/// under `root`.
pub fn strip_root(root: &str, path: &str) -> (r: Option<String>)
    ensures
        match relative_to(root@, path@) {
            Some(rel) => r matches Some(s) && s@ == rel,
            None => r is None,
        },
{
    if !starts_with(path, root) {
        return None;
    }
    let n = root.unicode_len();
    let len = path.unicode_len();
    if n == 0 || root.get_char(n - 1) == '/' || n == len {
        Some(String::from_str(path.substring_char(n, len)))
    } else if path.get_char(n) == '/' {
        Some(String::from_str(path.substring_char(n + 1, len)))
    } else {
        None
    }
}

/// The parent directory of `path`, or `None` at the top.
pub fn parent_dir(path: &str) -> (r: Option<String>)
    ensures
        match parent_of(path@) {
            Some(q) => r matches Some(s) && s@ == q,
            None => r is None,
        },
{
    let n = path.unicode_len();
    let mut end: usize = n;
    proof {
        assert(path@.take(n as int) =~= path@);
    }
    while end > 1 && path.get_char(end - 1) == '/'
        invariant
            n == path@.len(),
            end <= n,
            parent_of(path@.take(end as int)) == parent_of(path@),
        decreases end,
    {
        assert(path@.take(end as int).drop_last() =~= path@.take(end - 1));
        end = end - 1;
    }
    let ghost q = path@.take(end as int);
    if end == 0 {
        return None;
    }
    if end == 1 && path.get_char(0) == '/' {
        return None;
    }
    let mut k: usize = end;
    assert(q.take(end as int) =~= q);
    assert(parent_of(q) == parent_of(path@));
    assert(!(q.len() > 1 && q.last() == '/'));
    assert(!(q.len() == 1 && q[0] == '/'));
    while k > 0 && path.get_char(k - 1) != '/'
        invariant
            end <= n,
            n == path@.len(),
            k <= end,
            q == path@.take(end as int),
            last_separator(q) == last_separator(q.take(k as int)),
        decreases k,
    {
        assert(q.take(k as int).drop_last() =~= q.take(k - 1));
        k = k - 1;
    }
    proof {
        if k == 0 {
            assert(q.take(0) =~= Seq::<char>::empty());
        }
        lemma_last_separator_bounds(q);
    }
    if k == 0 {
        Some(String::new())
    } else if k == 1 {
        proof {
            reveal_strlit("/");
        }
        let r = String::from_str("/");
        assert(r@ =~= seq!['/']);
        Some(r)
    } else {
        let r = String::from_str(path.substring_char(0, k - 1));
        assert(r@ =~= q.take(k - 1));
        Some(r)
    }
}

} // verus!
