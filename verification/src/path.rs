//! The base name of a file path: the suffix after the last `/`, used as the
//! reported filename of an uploaded image file.

use vstd::prelude::*;

verus! {

/// The suffix of `p` after its last `/`: the whole of `p` when it holds no
/// `/`, and empty when it ends with one.
pub open spec fn spec_basename(p: Seq<char>) -> Seq<char>
    decreases p.len(),
{
    if p.len() == 0 {
        p
    } else if p.last() == '/' {
        Seq::<char>::empty()
    } else {
        spec_basename(p.drop_last()).push(p.last())
    }
}

/// When every character from `i` on differs from `/` and the character just
/// before `i` (if any) is `/`, the base name is exactly the suffix from `i`.
proof fn lemma_basename_is_suffix(p: Seq<char>, i: int)
    requires
        0 <= i <= p.len(),
        forall|j: int| i <= j < p.len() ==> p[j] != '/',
        i > 0 ==> p[i - 1] == '/',
    ensures
        spec_basename(p) == p.subrange(i, p.len() as int),
    decreases p.len(),
{
    if p.len() == i {
        if i == 0 {
            assert(spec_basename(p) =~= p.subrange(0, 0));
        } else {
            assert(p.last() == '/');
            assert(spec_basename(p) =~= p.subrange(i, p.len() as int));
        }
    } else {
        assert(p.last() != '/');
        lemma_basename_is_suffix(p.drop_last(), i);
        assert(spec_basename(p) =~= p.subrange(i, p.len() as int));
    }
}

/// Returns the base name of `path`: everything after the last `/`.
pub fn basename(path: &str) -> (r: String)
    ensures
        r@ == spec_basename(path@),
{
    let n = path.unicode_len();
    let mut i: usize = n;
    while i > 0 && path.get_char(i - 1) != '/'
        invariant
            i <= n,
            n == path@.len(),
            forall|j: int| i <= j < n ==> path@[j] != '/',
        decreases i,
    {
        i = i - 1;
    }
    proof {
        lemma_basename_is_suffix(path@, i as int);
    }
    path.substring_char(i, n).to_owned()
}

} // verus!
