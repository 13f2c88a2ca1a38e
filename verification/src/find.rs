//! First-match search over sequences.
//!
//! The selection state machine and the forecast lookups all hinge on the
//! index of the first occurrence of a value in a sequence.  This module
//! gives that index a name, [`spec_find`], and proves the facts the
//! callers need about it.

use vstd::prelude::*;

verus! {

/// The index of the first occurrence of `x` in `s`, or -1 when `s` does
/// not contain `x`.
pub open spec fn spec_find<T>(s: Seq<T>, x: T) -> int
    decreases s.len(),
{
    if s.len() == 0 {
        -1
    } else if s[0] == x {
        0
    } else {
        let r = spec_find(s.drop_first(), x);
        if r == -1 {
            -1
        } else {
            r + 1
        }
    }
}

/// What the first-match index means: it is -1 exactly when `x` is absent,
/// and otherwise it lands on `x` with no earlier occurrence.
pub proof fn lemma_spec_find<T>(s: Seq<T>, x: T)
    ensures
        spec_find(s, x) == -1 ==> forall|k: int| 0 <= k < s.len() ==> s[k] != x,
        spec_find(s, x) != -1 ==> 0 <= spec_find(s, x) < s.len() && s[spec_find(s, x)] == x,
        forall|k: int| 0 <= k < spec_find(s, x) ==> s[k] != x,
    decreases s.len(),
{
    if s.len() == 0 {
    } else if s[0] == x {
    } else {
        lemma_spec_find(s.drop_first(), x);
        assert forall|k: int| 1 <= k < s.len() implies s[k] == s.drop_first()[k - 1] by {}
    }
}

/// A witness pins the first-match index down: if `s[i]` is `x` and nothing
/// before `i` is, then `i` is the first-match index.
pub proof fn lemma_spec_find_at<T>(s: Seq<T>, x: T, i: int)
    requires
        0 <= i < s.len(),
        s[i] == x,
        forall|k: int| 0 <= k < i ==> s[k] != x,
    ensures
        spec_find(s, x) == i,
    decreases i,
{
    if i == 0 {
    } else {
        assert(s[0] != x);
        assert forall|k: int| 0 <= k < i - 1 implies s.drop_first()[k] != x by {
            assert(s.drop_first()[k] == s[k + 1]);
        }
        assert(s.drop_first()[i - 1] == x);
        lemma_spec_find_at(s.drop_first(), x, i - 1);
    }
}

/// Absence pins the first-match index down: if nothing in `s` is `x`,
/// the first-match index is -1.
pub proof fn lemma_spec_find_none<T>(s: Seq<T>, x: T)
    requires
        forall|k: int| 0 <= k < s.len() ==> s[k] != x,
    ensures
        spec_find(s, x) == -1,
    decreases s.len(),
{
    if s.len() > 0 {
        assert forall|k: int| 0 <= k < s.drop_first().len() implies s.drop_first()[k] != x by {
            assert(s.drop_first()[k] == s[k + 1]);
        }
        lemma_spec_find_none(s.drop_first(), x);
    }
}

} // verus!
