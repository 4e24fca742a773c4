use vstd::prelude::*;
use vstd::string::*;

verus! {

/// `w` occurs in `s` at position `start`.
pub open spec fn occurs_at(s: Seq<char>, start: int, w: Seq<char>) -> bool {
    0 <= start && start + w.len() <= s.len() && s.subrange(start, start + w.len()) == w
}

/// Whether `w` occurs in `s` at position `start`.
pub fn occurs_at_exec(s: &str, start: usize, w: &str) -> (r: bool)
    ensures
        r == occurs_at(s@, start as int, w@),
{
    let n = s.unicode_len();
    let m = w.unicode_len();
    if start > n || m > n - start {
        return false;
    }
    let mut j: usize = 0;
    while j < m
        invariant
            j <= m,
            m == w@.len(),
            n == s@.len(),
            start + m <= n,
            forall|k: int| 0 <= k < j ==> s@[start + k] == w@[k],
        decreases m - j,
    {
        if s.get_char(start + j) != w.get_char(j) {
            assert(s@.subrange(start as int, start + m)[j as int] != w@[j as int]);
            return false;
        }
        j = j + 1;
    }
    assert(s@.subrange(start as int, start + m) =~= w@);
    true
}

/// A copy of the characters of `s` from `from` up to `to`.
pub fn copy_range(s: &str, from: usize, to: usize) -> (r: String)
    requires
        from <= to <= s@.len(),
    ensures
        r@ == s@.subrange(from as int, to as int),
{
    String::from_str(s.substring_char(from, to))
}

/// The characters after the last `/` of `s`; all of `s` when it has none.
pub open spec fn last_segment(s: Seq<char>) -> Seq<char>
    decreases s.len(),
{
    if s.len() == 0 {
        s
    } else if s.last() == '/' {
        Seq::empty()
    } else {
        last_segment(s.drop_last()).push(s.last())
    }
}

proof fn lemma_last_segment(s: Seq<char>, j: int)
    requires
        0 <= j <= s.len(),
        j == 0 || s[j - 1] == '/',
        forall|k: int| j <= k < s.len() ==> s[k] != '/',
    ensures
        last_segment(s) == s.subrange(j, s.len() as int),
    decreases s.len(),
{
    if s.len() > j {
        lemma_last_segment(s.drop_last(), j);
        assert(s.drop_last().subrange(j, s.len() - 1).push(s.last()) =~= s.subrange(
            j,
            s.len() as int,
        ));
    } else {
        assert(s.subrange(j, s.len() as int) =~= Seq::<char>::empty());
    }
}

/// The characters after the last `/` of `s`.
pub fn last_segment_of(s: &str) -> (r: String)
    ensures
        r@ == last_segment(s@),
{
    let n = s.unicode_len();
    let mut j: usize = n;
    while j > 0 && s.get_char(j - 1) != '/'
        invariant
            j <= n,
            n == s@.len(),
            forall|k: int| j <= k < n ==> s@[k] != '/',
        decreases j,
    {
        j = j - 1;
    }
    proof {
        lemma_last_segment(s@, j as int);
    }
    copy_range(s, j, n)
}

} // verus!
