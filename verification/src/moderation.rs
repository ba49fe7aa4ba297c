//! Moderation filter: scans free-text fields against a banned-term policy,
//! case-insensitively, and reports every matched term.

use vstd::prelude::*;
use crate::text::{contains_ci, contains_ci_ex, to_chars};

verus! {

/// Some policy term occurs in `text` (case-insensitively).
pub open spec fn any_match(text: Seq<char>, policy: Seq<String>) -> bool {
    exists|i: int| 0 <= i < policy.len() && contains_ci(text, #[trigger] policy[i]@)
}

/// The policy terms that occur in `text`, in policy order.
pub open spec fn matched_of(text: Seq<char>, policy: Seq<String>) -> Seq<String>
    decreases policy.len(),
{
    if policy.len() == 0 {
        Seq::empty()
    } else {
        let pre = matched_of(text, policy.drop_last());
        if contains_ci(text, policy.last()@) {
            pre.push(policy.last())
        } else {
            pre
        }
    }
}

/// A term matches exactly when the matched list is non-empty.
pub proof fn lemma_matched_len(text: Seq<char>, policy: Seq<String>)
    ensures
        matched_of(text, policy).len() > 0 <==> any_match(text, policy),
    decreases policy.len(),
{
    if policy.len() == 0 {
    } else {
        let pre = policy.drop_last();
        lemma_matched_len(text, pre);
        if contains_ci(text, policy.last()@) {
            assert(policy[policy.len() - 1] == policy.last());
            assert(any_match(text, policy));
        } else {
            if any_match(text, policy) {
                let i = choose|i: int| 0 <= i < policy.len() && contains_ci(text, #[trigger] policy[i]@);
                assert(i < policy.len() - 1);
                assert(pre[i] == policy[i]);
                assert(any_match(text, pre));
            }
            if any_match(text, pre) {
                let i = choose|i: int| 0 <= i < pre.len() && contains_ci(text, #[trigger] pre[i]@);
                assert(policy[i] == pre[i]);
                assert(any_match(text, policy));
            }
        }
    }
}

/// The policy terms occurring in `text`, in policy order.
pub fn matched_terms(text: &String, policy: &Vec<String>) -> (r: Vec<String>)
    ensures
        r@ == matched_of(text@, policy@),
{
    let tc = to_chars(text.as_str());
    let mut r: Vec<String> = Vec::new();
    let mut i: usize = 0;
    while i < policy.len()
        invariant
            i <= policy@.len(),
            tc@ == text@,
            r@ == matched_of(text@, policy@.subrange(0, i as int)),
        decreases policy@.len() - i,
    {
        let mc = to_chars(policy[i].as_str());
        if contains_ci_ex(&tc, &mc) {
            r.push(policy[i].clone());
        }
        i = i + 1;
        proof {
            let pre = policy@.subrange(0, i as int);
            assert(pre.drop_last() =~= policy@.subrange(0, i - 1));
            assert(pre.last() == policy@[i - 1]);
        }
    }
    assert(policy@.subrange(0, policy@.len() as int) =~= policy@);
    r
}

/// Scans `text` against the banned-term policy. Returns all matched terms
/// (not just the first), or `Ok` when no term matches.
pub fn check(text: &String, policy: &Vec<String>) -> (r: Result<(), Vec<String>>)
    ensures
        r is Ok <==> !any_match(text@, policy@),
        r matches Err(v) ==> v@ == matched_of(text@, policy@) && v@.len() > 0,
{
    let m = matched_terms(text, policy);
    proof {
        lemma_matched_len(text@, policy@);
    }
    if m.len() == 0 {
        Ok(())
    } else {
        Err(m)
    }
}

} // verus!
