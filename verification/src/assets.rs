//! Request-path rules for the static asset tier.
//!
//! The static tier looks a request path up under a configured root
//! directory.  The lookup itself is filesystem I/O and happens outside
//! this crate; the rule that no request may traverse outside the root is
//! decided here.

use vstd::prelude::*;

verus! {

/// A `..` path segment starts at index `i` of `p`: two dots, preceded by a
/// separator or the start, followed by a separator or the end.
pub open spec fn spec_dotdot_at(p: Seq<char>, i: int) -> bool {
    &&& 0 <= i
    &&& i + 2 <= p.len()
    &&& p[i] == '.'
    &&& p[i + 1] == '.'
    &&& (i == 0 || p[i - 1] == '/')
    &&& (i + 2 == p.len() || p[i + 2] == '/')
}

/// `p` holds a `..` segment somewhere.
pub open spec fn spec_has_dotdot_segment(p: Seq<char>) -> bool {
    exists|i: int| spec_dotdot_at(p, i)
}

/// Whether `path` is free of `..` segments, so a lookup relative to the
/// static root cannot escape it.
pub fn is_traversal_free(path: &str) -> (r: bool)
    ensures
        r == !spec_has_dotdot_segment(path@),
{
    let n = path.unicode_len();
    if n < 2 {
        assert(!spec_has_dotdot_segment(path@)) by {
            assert(forall|i: int| !spec_dotdot_at(path@, i));
        }
        return true;
    }
    let mut i: usize = 0;
    while i + 1 < n
        invariant
            n == path@.len(),
            n >= 2,
            i <= n - 1,
            forall|k: int| 0 <= k < i ==> !spec_dotdot_at(path@, k),
        decreases n - i,
    {
        let c0 = path.get_char(i);
        let c1 = path.get_char(i + 1);
        if c0 == '.' && c1 == '.' {
            let before_ok = i == 0 || path.get_char(i - 1) == '/';
            let after_ok = i + 2 == n || path.get_char(i + 2) == '/';
            if before_ok && after_ok {
                assert(spec_dotdot_at(path@, i as int));
                return false;
            }
        }
        i = i + 1;
    }
    assert(!spec_has_dotdot_segment(path@)) by {
        assert(forall|k: int| k >= i ==> !spec_dotdot_at(path@, k));
    }
    true
}

} // verus!
