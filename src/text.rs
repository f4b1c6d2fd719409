//! Paths and labels as text.

use vstd::prelude::*;

verus! {

/// `base` and `part` joined by one `/`.
pub open spec fn path_join(base: Seq<char>, part: Seq<char>) -> Seq<char> {
    base + seq!['/'] + part
}

/// `s` holds `pat` at position `i`.
pub open spec fn occurs_at(s: Seq<char>, pat: Seq<char>, i: int) -> bool {
    0 <= i && i + pat.len() <= s.len() && s.subrange(i, i + pat.len()) == pat
}

pub open spec fn contains_text(s: Seq<char>, pat: Seq<char>) -> bool {
    exists|i: int| occurs_at(s, pat, i)
}

/// The text before the last `/` of `p`; empty when `p` holds none.
pub open spec fn parent_of(p: Seq<char>) -> Seq<char> {
    if exists|i: int| 0 <= i < p.len() && p[i] == '/' {
        let i = choose|i: int|
            0 <= i < p.len() && p[i] == '/' && forall|j: int| i < j < p.len() ==> p[j] != '/';
        p.subrange(0, i)
    } else {
        Seq::empty()
    }
}

/// Joins `base` and `part` with a `/`.
pub fn join_path(base: &str, part: &str) -> (r: String)
    ensures
        r@ == path_join(base@, part@),
{
    let mut r = String::from_str(base);
    r.append("/");
    r.append(part);
    proof {
        reveal_strlit("/");
    }
    assert(r@ =~= path_join(base@, part@));
    r
}

/// Whether `pat` occurs in `s`.
pub fn contains(s: &str, pat: &str) -> (r: bool)
    ensures
        r == contains_text(s@, pat@),
{
    let n = s.unicode_len();
    let m = pat.unicode_len();
    if m > n {
        proof {
            assert forall|i: int| !occurs_at(s@, pat@, i) by {}
        }
        return false;
    }
    let mut i: usize = 0;
    while i <= n - m
        invariant
            n == s@.len(),
            m == pat@.len(),
            m <= n,
            i <= n - m + 1,
            forall|k: int| 0 <= k < i ==> !occurs_at(s@, pat@, k),
        decreases n - m + 1 - i,
    {
        let mut j: usize = 0;
        let mut same = true;
        while j < m
            invariant
                n == s@.len(),
                m == pat@.len(),
                m <= n,
                i <= n - m,
                j <= m,
                same == forall|t: int| 0 <= t < j ==> s@[i + t] == pat@[t],
            decreases m - j,
        {
            if s.get_char(i + j) != pat.get_char(j) {
                same = false;
            }
            j = j + 1;
        }
        if same {
            assert(s@.subrange(i as int, i + m) =~= pat@);
            assert(occurs_at(s@, pat@, i as int));
            return true;
        }
        assert(!occurs_at(s@, pat@, i as int)) by {
            let t = choose|t: int| 0 <= t < m && s@[i + t] != pat@[t];
            if s@.subrange(i as int, i + m) == pat@ {
                assert(s@.subrange(i as int, i + m)[t] == s@[i + t]);
            }
        }
        i = i + 1;
    }
    proof {
        assert forall|k: int| !occurs_at(s@, pat@, k) by {
            if 0 <= k && k + m <= n {
                assert(k < i);
            }
        }
    }
    false
}

/// The text of `p` before its last `/`.
pub fn parent_dir(p: &str) -> (r: String)
    ensures
        r@ == parent_of(p@),
{
    let n = p.unicode_len();
    let mut i: usize = n;
    while i > 0
        invariant
            n == p@.len(),
            i <= n,
            forall|j: int| i <= j < n ==> p@[j] != '/',
        decreases i,
    {
        if p.get_char(i - 1) == '/' {
            let k = i - 1;
            let r = p.substring_char(0, k).to_owned();
            proof {
                let c = choose|c: int|
                    0 <= c < p@.len() && p@[c] == '/' && forall|j: int| c < j < p@.len() ==> p@[j] != '/';
                if c < k {
                    assert(p@[k as int] == '/');
                }
                if c > k {
                    assert(p@[c] != '/');
                }
            }
            return r;
        }
        i = i - 1;
    }
    String::new()
}

} // verus!
