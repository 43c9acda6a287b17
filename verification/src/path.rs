//! Path reasoning on plain strings: whether a resolved path is absolute, and
//! the parent directory the working directory defaults to. Paths here are
//! separator-joined strings as the resolver hands them out, without a
//! trailing separator.

use vstd::prelude::*;
use vstd::string::StrSliceExecFns;

verus! {

/// An absolute path starts with the path separator.
pub open spec fn spec_is_absolute(p: Seq<char>) -> bool {
    p.len() > 0 && p[0] == '/'
}

/// Index of the last path separator, or -1 where none occurs.
pub open spec fn last_slash(p: Seq<char>) -> int
    decreases p.len(),
{
    if p.len() == 0 {
        -1
    } else if p.last() == '/' {
        p.len() - 1
    } else {
        last_slash(p.drop_last())
    }
}

/// The parent directory of an absolute path: everything before the last
/// separator, the root itself where the last separator is the first
/// character, and nothing for the root.
pub open spec fn spec_parent(p: Seq<char>) -> Option<Seq<char>>
    recommends
        spec_is_absolute(p),
{
    if p.len() <= 1 {
        None
    } else if last_slash(p) == 0 {
        Some(p.take(1))
    } else {
        Some(p.take(last_slash(p)))
    }
}

/// Whether the path is absolute.
pub fn path_is_absolute(p: &str) -> (r: bool)
    ensures
        r == spec_is_absolute(p@),
{
    p.unicode_len() > 0 && p.get_char(0) == '/'
}

/// The parent directory of an absolute path, as `spec_parent` gives it.
pub fn path_parent(p: &str) -> (r: Option<String>)
    requires
        spec_is_absolute(p@),
    ensures
        r is Some <==> spec_parent(p@) is Some,
        r is Some ==> r.unwrap()@ == spec_parent(p@).unwrap(),
{
    let n = p.unicode_len();
    if n == 1 {
        return None;
    }
    let mut i: usize = n;
    proof {
        assert(p@.take(n as int) =~= p@);
    }
    while p.get_char(i - 1) != '/'
        invariant
            1 <= i <= n,
            n == p@.len(),
            n > 1,
            spec_is_absolute(p@),
            last_slash(p@) == last_slash(p@.take(i as int)),
        decreases i,
    {
        proof {
            let pre = p@.take(i as int);
            assert(pre.last() == p@[i - 1]);
            assert(pre.drop_last() =~= p@.take(i - 1));
            if i == 1 {
                assert(p@[0] == '/');
            }
        }
        i = i - 1;
    }
    proof {
        let pre = p@.take(i as int);
        assert(pre.last() == p@[i - 1]);
        assert(last_slash(pre) == i - 1);
    }
    let k = i - 1;
    if k == 0 {
        let root = "/".to_owned();
        proof {
            reveal_strlit("/");
            assert(p@.take(1) =~= "/"@);
        }
        Some(root)
    } else {
        proof {
            assert(p@.subrange(0, k as int) =~= p@.take(k as int));
        }
        Some(p.substring_char(0, k).to_owned())
    }
}

} // verus!
