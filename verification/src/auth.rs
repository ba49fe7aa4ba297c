//! Claims verifier: resolves a signed identity token to the authenticated
//! user's id against the live session table. An unknown, expired or forged
//! token has no session row and fails to decode.

use vstd::prelude::*;
use crate::entities::Session;

verus! {

/// The identity behind `token`: the user of the first session carrying it.
pub open spec fn spec_decode(token: Seq<char>, sessions: Seq<Session>) -> Option<i32>
    decreases sessions.len(),
{
    if sessions.len() == 0 {
        Option::None
    } else if sessions[0].token@ == token {
        Option::Some(sessions[0].user_id)
    } else {
        spec_decode(token, sessions.subrange(1, sessions.len() as int))
    }
}

/// Decodes an identity token into the authenticated user's id, or `None`
/// for a token no live session carries.
pub fn decode(token: &String, sessions: &Vec<Session>) -> (r: Option<i32>)
    ensures
        r == spec_decode(token@, sessions@),
{
    let n = sessions.len();
    assert(sessions@.subrange(0, n as int) =~= sessions@);
    let mut i: usize = 0;
    while i < n
        invariant
            i <= n,
            n == sessions@.len(),
            spec_decode(token@, sessions@) == spec_decode(
                token@,
                sessions@.subrange(i as int, n as int),
            ),
        decreases n - i,
    {
        let tail = Ghost(sessions@.subrange(i as int, n as int));
        assert(tail@[0] == sessions@[i as int]);
        if sessions[i].token == *token {
            assert(spec_decode(token@, tail@) == Option::Some(sessions@[i as int].user_id));
            return Option::Some(sessions[i].user_id);
        }
        assert(tail@.subrange(1, tail@.len() as int) =~= sessions@.subrange(
            i + 1 as int,
            n as int,
        ));
        i = i + 1;
    }
    assert(sessions@.subrange(n as int, n as int) =~= Seq::<Session>::empty());
    Option::None
}

} // verus!
