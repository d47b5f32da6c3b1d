//! When a stored Pokédex definition is replaced by the one shipped with the service.
use vstd::prelude::*;
use vstd::string::StrSliceExecFns;

verus! {

/// `a` comes strictly before `b` in lexicographic order of their characters (the order
/// of `str`, since UTF-8 keeps the order of code points).
pub open spec fn precedes(a: Seq<char>, b: Seq<char>) -> bool {
    exists|k: int|
        0 <= k <= a.len() && k <= b.len() && #[trigger] a.subrange(0, k) == b.subrange(0, k) && (
        (k == a.len() && k < b.len()) || (k < a.len() && k < b.len() && (a[k] as u32) < (
        b[k] as u32)))
}

/// Whether `a` comes strictly before `b` in lexicographic order.
pub fn commit_precedes(a: &str, b: &str) -> (r: bool)
    ensures
        r == precedes(a@, b@),
{
    let la = a.unicode_len();
    let lb = b.unicode_len();
    let mut i: usize = 0;
    while i < la && i < lb
        invariant
            la == a@.len(),
            lb == b@.len(),
            i <= la,
            i <= lb,
            forall|j: int| 0 <= j < i ==> a@[j] == b@[j],
        decreases la - i,
    {
        let ca = a.get_char(i);
        let cb = b.get_char(i);
        if ca != cb {
            proof {
                assert(a@.subrange(0, i as int) =~= b@.subrange(0, i as int));
                if (ca as u32) >= (cb as u32) {
                    assert forall|k: int|
                        0 <= k <= a@.len() && k <= b@.len() && #[trigger] a@.subrange(0, k)
                            == b@.subrange(0, k) implies !((k == a@.len() && k < b@.len()) || (k
                        < a@.len() && k < b@.len() && (a@[k] as u32) < (b@[k] as u32))) by {
                        if k > i {
                            assert(a@.subrange(0, k)[i as int] == b@.subrange(0, k)[i as int]);
                        }
                    }
                }
            }
            return (ca as u32) < (cb as u32);
        }
        i = i + 1;
    }
    proof {
        assert(a@.subrange(0, i as int) =~= b@.subrange(0, i as int));
        if i >= lb {
            assert forall|k: int|
                0 <= k <= a@.len() && k <= b@.len() && #[trigger] a@.subrange(0, k)
                    == b@.subrange(0, k) implies !((k == a@.len() && k < b@.len()) || (k
                < a@.len() && k < b@.len() && (a@[k] as u32) < (b@[k] as u32))) by {}
        }
    }
    i < lb
}

/// Whether a stored definition with commit `stored` (none when nothing is stored) must
/// be replaced by one built from commit `incoming`: commits are compared as strings, and
/// a stored commit that is the same or later is kept.
pub fn pokedex_is_outdated(stored: Option<&str>, incoming: &str) -> (r: bool)
    ensures
        stored is None ==> r,
        stored matches Some(s) ==> r == precedes(s@, incoming@),
{
    match stored {
        Some(s) => commit_precedes(s, incoming),
        None => true,
    }
}

} // verus!
