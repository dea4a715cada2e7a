//! A small path vocabulary over plain strings.
//!
//! Paths are strings whose components are joined by `/`. Joining onto an
//! empty directory yields the component alone, so relative paths compose
//! the way the platform's path type composes them. The base name is what
//! follows the last separator; the parent is what precedes it.

use vstd::prelude::*;
use vstd::string::StringExecFns;
use vstd::string::StrSliceExecFns;

verus! {

/// The index of the last `/` in `s`, or `-1` when there is none.
pub open spec fn last_sep(s: Seq<char>) -> int
    decreases s.len(),
{
    if s.len() == 0 {
        -1
    } else if s[s.len() - 1] == '/' {
        s.len() - 1
    } else {
        last_sep(s.drop_last())
    }
}

/// What follows the last separator: the whole string when there is none.
pub open spec fn base_name(s: Seq<char>) -> Seq<char> {
    s.subrange(last_sep(s) + 1, s.len() as int)
}

/// What precedes the last separator: empty when there is none.
pub open spec fn parent_dir(s: Seq<char>) -> Seq<char> {
    if last_sep(s) <= 0 {
        Seq::empty()
    } else {
        s.subrange(0, last_sep(s))
    }
}

/// `d` and `n` joined by a separator; `n` alone when `d` is empty.
pub open spec fn spec_join(d: Seq<char>, n: Seq<char>) -> Seq<char> {
    if d.len() == 0 {
        n
    } else {
        d + "/"@ + n
    }
}

proof fn lemma_last_sep_at(s: Seq<char>, j: int)
    requires
        0 <= j < s.len(),
        s[j] == '/',
        forall|k: int| j < k < s.len() ==> s[k] != '/',
    ensures
        last_sep(s) == j,
    decreases s.len(),
{
    if j == s.len() - 1 {
    } else {
        lemma_last_sep_at(s.drop_last(), j);
    }
}

proof fn lemma_no_sep(s: Seq<char>)
    requires
        forall|k: int| 0 <= k < s.len() ==> s[k] != '/',
    ensures
        last_sep(s) == -1,
    decreases s.len(),
{
    if s.len() > 0 {
        lemma_no_sep(s.drop_last());
    }
}

/// Law: joining a slash-free, nonempty component onto any directory gives
/// a path whose base name is that component. So a crate found at
/// `parent/<name>` is reported under the name it was referenced by.
pub proof fn lemma_base_name_join(d: Seq<char>, n: Seq<char>)
    requires
        n.len() > 0,
        forall|k: int| 0 <= k < n.len() ==> n[k] != '/',
    ensures
        base_name(spec_join(d, n)) == n,
{
    reveal_strlit("/");
    if d.len() == 0 {
        lemma_no_sep(n);
        assert(base_name(n) =~= n);
    } else {
        let j = d + "/"@ + n;
        assert(j[d.len() as int] == '/');
        assert(forall|k: int| d.len() < k < j.len() ==> j[k] == n[k - d.len() - 1]);
        lemma_last_sep_at(j, d.len() as int);
        assert(base_name(j) =~= n);
    }
}

/// The base name of a path: its last `/`-separated component.
pub fn file_name_of(p: &str) -> (r: String)
    ensures
        r@ == base_name(p@),
{
    let n = p.unicode_len();
    let mut i: usize = n;
    while i > 0
        invariant
            i <= n,
            n == p@.len(),
            forall|k: int| i <= k < n ==> p@[k] != '/',
        decreases i,
    {
        if p.get_char(i - 1) == '/' {
            proof {
                lemma_last_sep_at(p@, i - 1);
            }
            let r = p.substring_char(i, n);
            return r.to_owned();
        }
        i -= 1;
    }
    proof {
        lemma_no_sep(p@);
        assert(base_name(p@) =~= p@);
    }
    p.to_owned()
}

/// The parent of a path: everything before its last `/`-separated
/// component, or the empty string when there is no separator.
pub fn parent_of(p: &str) -> (r: String)
    ensures
        r@ == parent_dir(p@),
{
    let n = p.unicode_len();
    let mut i: usize = n;
    while i > 0
        invariant
            i <= n,
            n == p@.len(),
            forall|k: int| i <= k < n ==> p@[k] != '/',
        decreases i,
    {
        if p.get_char(i - 1) == '/' {
            proof {
                lemma_last_sep_at(p@, i - 1);
            }
            if i == 1 {
                proof {
                    assert(parent_dir(p@) =~= Seq::<char>::empty());
                }
                return String::new();
            }
            let r = p.substring_char(0, i - 1);
            return r.to_owned();
        }
        i -= 1;
    }
    proof {
        lemma_no_sep(p@);
        assert(parent_dir(p@) =~= Seq::<char>::empty());
    }
    String::new()
}

/// Joins a directory and a component with a separator.
pub fn join_path(d: &str, n: &str) -> (r: String)
    ensures
        r@ == spec_join(d@, n@),
{
    if d.is_empty() {
        n.to_owned()
    } else {
        let mut s = d.to_owned();
        s.append("/");
        s.append(n);
        s
    }
}

} // verus!
