//! Character-level text primitives: ASCII case folding, case-insensitive
//! substring matching, and string joining.

use vstd::prelude::*;
use vstd::string::StrSliceExecFns;

verus! {

/// The code point of `c` with an ASCII upper-case letter folded to lower case.
pub open spec fn lower_code(c: char) -> int {
    if 65 <= c as int && c as int <= 90 {
        c as int + 32
    } else {
        c as int
    }
}

/// `term` occurs in `text` at offset `i`, compared case-insensitively.
pub open spec fn match_at(text: Seq<char>, term: Seq<char>, i: int) -> bool {
    &&& 0 <= i
    &&& i + term.len() <= text.len()
    &&& forall|j: int|
        0 <= j < term.len() ==> lower_code(text[i + j]) == #[trigger] lower_code(term[j])
}

/// `term` occurs somewhere in `text`, compared case-insensitively.
pub open spec fn contains_ci(text: Seq<char>, term: Seq<char>) -> bool {
    exists|i: int| match_at(text, term, i)
}

/// ASCII case folding of one character's code point.
pub fn lower_ex(c: char) -> (r: u32)
    ensures
        r as int == lower_code(c),
{
    let u = c as u32;
    if 65 <= u && u <= 90 {
        u + 32
    } else {
        u
    }
}

/// The characters of `s`, in order.
pub fn to_chars(s: &str) -> (v: Vec<char>)
    ensures
        v@ == s@,
{
    let n = s.unicode_len();
    let mut v: Vec<char> = Vec::new();
    let mut i: usize = 0;
    while i < n
        invariant
            i <= n,
            n == s@.len(),
            v@ == s@.subrange(0, i as int),
        decreases n - i,
    {
        v.push(s.get_char(i));
        i = i + 1;
        assert(v@ =~= s@.subrange(0, i as int));
    }
    assert(v@ =~= s@);
    v
}

/// Case-insensitive substring test over character vectors.
pub fn contains_ci_ex(text: &Vec<char>, term: &Vec<char>) -> (r: bool)
    ensures
        r == contains_ci(text@, term@),
{
    if term.len() == 0 {
        assert(match_at(text@, term@, 0));
        return true;
    }
    if term.len() > text.len() {
        assert(forall|i: int| !match_at(text@, term@, i));
        return false;
    }
    let bound: usize = text.len() - term.len() + 1;
    assert(text@.len() <= usize::MAX);
    let mut i: usize = 0;
    while i < bound
        invariant
            i <= bound,
            bound == text@.len() - term@.len() + 1,
            term@.len() <= text@.len(),
            text@.len() <= usize::MAX,
            forall|ii: int| 0 <= ii < i ==> !match_at(text@, term@, ii),
        decreases bound - i,
    {
        let mut j: usize = 0;
        let mut all_eq: bool = true;
        while j < term.len()
            invariant
                j <= term@.len(),
                i + term@.len() <= text@.len(),
                text@.len() <= usize::MAX,
                all_eq ==> forall|k: int|
                    0 <= k < j ==> lower_code(text@[i + k]) == #[trigger] lower_code(term@[k]),
                !all_eq ==> exists|k: int|
                    0 <= k < j && lower_code(text@[i + k]) != #[trigger] lower_code(term@[k]),
            decreases term@.len() - j,
        {
            if lower_ex(text[i + j]) != lower_ex(term[j]) {
                all_eq = false;
            }
            j = j + 1;
        }
        if all_eq {
            assert(match_at(text@, term@, i as int));
            return true;
        }
        assert(!match_at(text@, term@, i as int));
        i = i + 1;
    }
    assert forall|ii: int| !match_at(text@, term@, ii) by {
        if 0 <= ii && ii + term@.len() <= text@.len() {
            assert(ii < bound);
        }
    }
    false
}

/// Case-insensitive substring test over strings.
pub fn str_contains_ci(text: &String, term: &String) -> (r: bool)
    ensures
        r == contains_ci(text@, term@),
{
    let tc = to_chars(text.as_str());
    let mc = to_chars(term.as_str());
    contains_ci_ex(&tc, &mc)
}

/// The terms joined in order, with `sep` between consecutive terms.
pub open spec fn spec_join(terms: Seq<String>, sep: Seq<char>) -> Seq<char>
    decreases terms.len(),
{
    if terms.len() == 0 {
        Seq::empty()
    } else if terms.len() == 1 {
        terms[0]@
    } else {
        spec_join(terms.drop_last(), sep) + sep + terms.last()@
    }
}

/// Joins the terms with `sep` between consecutive terms.
pub fn join_terms(terms: &Vec<String>, sep: &str) -> (r: String)
    ensures
        r@ == spec_join(terms@, sep@),
{
    let mut r = String::new();
    let mut i: usize = 0;
    while i < terms.len()
        invariant
            i <= terms@.len(),
            r@ == spec_join(terms@.subrange(0, i as int), sep@),
        decreases terms@.len() - i,
    {
        if i > 0 {
            r.append(sep);
        }
        r.append(terms[i].as_str());
        i = i + 1;
        proof {
            let pre = terms@.subrange(0, i as int);
            assert(pre.drop_last() =~= terms@.subrange(0, i - 1));
            assert(pre.last() == terms@[i - 1]);
            assert(r@ =~= spec_join(pre, sep@));
        }
    }
    assert(terms@.subrange(0, terms@.len() as int) =~= terms@);
    r
}

} // verus!
