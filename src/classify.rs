use vstd::prelude::*;
use vstd::string::*;

verus! {

/// How a version string is classified.
#[derive(Debug, Clone, Copy, PartialEq, Eq, Structural)]
pub enum ReleaseKind {
    Stable,
    PreRelease,
}

/// The characters after which a pre-release marker is recognised.
pub open spec fn is_separator(c: char) -> bool {
    c == '-' || c == '+' || c == '_'
}

/// `c` equals the lower-case ASCII letter `m`, ignoring ASCII case.
pub open spec fn same_letter(c: char, m: char) -> bool {
    c == m || (c as u32) + 32 == (m as u32)
}

/// `s` begins with the lower-case marker `m`, ignoring ASCII case.
pub open spec fn begins_with_lower(s: Seq<char>, m: Seq<char>) -> bool {
    m.len() <= s.len() && forall|j: int| 0 <= j < m.len() ==> same_letter(s[j], m[j])
}

/// The words that mark a pre-release. Anything may follow each of them, so
/// `pre` also covers `prerelease` and `pre-release`.
pub open spec fn marker_words() -> Seq<Seq<char>> {
    seq![
        seq!['a', 'l', 'p', 'h', 'a'],
        seq!['b', 'e', 't', 'a'],
        seq!['r', 'c'],
        seq!['p', 'r', 'e'],
        seq!['s', 'n', 'a', 'p', 's', 'h', 'o', 't'],
        seq!['d', 'e', 'v'],
    ]
}

/// Position `i` of `v` holds a separator that a marker word follows.
pub open spec fn marker_at(v: Seq<char>, i: int) -> bool {
    0 <= i < v.len() && is_separator(v[i]) && exists|k: int|
        0 <= k < marker_words().len() && #[trigger] begins_with_lower(
            v.subrange(i + 1, v.len() as int),
            marker_words()[k],
        )
}

/// A version is a pre-release when some separator in it is followed by a
/// marker word.
pub open spec fn is_pre_release(v: Seq<char>) -> bool {
    exists|i: int| #[trigger] marker_at(v, i)
}

pub open spec fn kind_of(v: Seq<char>) -> ReleaseKind {
    if is_pre_release(v) {
        ReleaseKind::PreRelease
    } else {
        ReleaseKind::Stable
    }
}

fn is_separator_char(c: char) -> (r: bool)
    ensures
        r == is_separator(c),
{
    c == '-' || c == '+' || c == '_'
}

/// Whether the characters of `v` from `start` on begin with the marker `m`.
pub(crate) fn begins_with_lower_at(v: &str, start: usize, m: &str) -> (r: bool)
    requires
        start <= v@.len(),
    ensures
        r == begins_with_lower(v@.subrange(start as int, v@.len() as int), m@),
{
    let n = v.unicode_len();
    let mn = m.unicode_len();
    let rest = Ghost(v@.subrange(start as int, v@.len() as int));
    if mn > n - start {
        return false;
    }
    let mut j: usize = 0;
    while j < mn
        invariant
            j <= mn,
            mn == m@.len(),
            n == v@.len(),
            start + mn <= n,
            rest@ == v@.subrange(start as int, v@.len() as int),
            forall|k: int| 0 <= k < j ==> same_letter(rest@[k], m@[k]),
        decreases mn - j,
    {
        let c = v.get_char(start + j);
        let d = m.get_char(j);
        if !(c == d || (c as u32) + 32 == (d as u32)) {
            return false;
        }
        j = j + 1;
    }
    true
}

/// Whether position `i` of `v` holds a separator followed by a marker word.
fn marker_at_exec(v: &str, i: usize) -> (r: bool)
    requires
        i < v@.len(),
    ensures
        r == marker_at(v@, i as int),
{
    let ghost rest = v@.subrange(i + 1, v@.len() as int);
    let n = v.unicode_len();
    if !is_separator_char(v.get_char(i)) {
        return false;
    }
    proof {
        reveal_strlit("alpha");
        reveal_strlit("beta");
        reveal_strlit("rc");
        reveal_strlit("pre");
        reveal_strlit("snapshot");
        reveal_strlit("dev");
        assert("alpha"@ =~= marker_words()[0]);
        assert("beta"@ =~= marker_words()[1]);
        assert("rc"@ =~= marker_words()[2]);
        assert("pre"@ =~= marker_words()[3]);
        assert("snapshot"@ =~= marker_words()[4]);
        assert("dev"@ =~= marker_words()[5]);
    }
    let s = i + 1;
    let r = begins_with_lower_at(v, s, "alpha") || begins_with_lower_at(v, s, "beta")
        || begins_with_lower_at(v, s, "rc") || begins_with_lower_at(v, s, "pre")
        || begins_with_lower_at(v, s, "snapshot") || begins_with_lower_at(v, s, "dev");
    proof {
        if r {
            let k = choose|k: int| 0 <= k < 6 && begins_with_lower(rest, #[trigger] marker_words()[k]);
            assert(begins_with_lower(rest, marker_words()[k]));
        } else {
            assert forall|k: int| 0 <= k < marker_words().len() implies !begins_with_lower(
                rest,
                #[trigger] marker_words()[k],
            ) by {
                if k == 0 {
                } else if k == 1 {
                } else if k == 2 {
                } else if k == 3 {
                } else if k == 4 {
                } else {
                }
            }
        }
    }
    r
}

/// Classifies a version string: `PreRelease` when a separator (`-`, `+` or
/// `_`) is directly followed by `alpha`, `beta`, `rc`, `pre`, `snapshot` or
/// `dev` in any ASCII case, `Stable` otherwise.
pub fn classify(version: &str) -> (r: ReleaseKind)
    ensures
        r == kind_of(version@),
{
    let n = version.unicode_len();
    let mut i: usize = 0;
    while i < n
        invariant
            i <= n,
            n == version@.len(),
            forall|k: int| 0 <= k < i ==> !marker_at(version@, k),
        decreases n - i,
    {
        if marker_at_exec(version, i) {
            return ReleaseKind::PreRelease;
        }
        i = i + 1;
    }
    assert forall|k: int| !marker_at(version@, k) by {
        if 0 <= k < n {
        }
    }
    ReleaseKind::Stable
}

} // verus!
