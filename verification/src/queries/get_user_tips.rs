//! A user's tip balances as held right now; a user who never funded a jar
//! reads as holding none.

use vstd::prelude::*;

use crate::asset::Asset;
use crate::state::spec_has_jar;
use crate::state::spec_jar_index;
use crate::state::State;

verus! {

/// Reads the user's tip balances.
#[verifier::loop_isolation(false)]
pub fn get_user_tips(state: &State, user: String) -> (r: Vec<Asset>)
    requires
        state.wf(),
    ensures
        spec_has_jar(state.tip_jars@, user@) ==> r@ == state.tip_jars@[spec_jar_index(
            state.tip_jars@,
            user@,
        )].tips@,
        !spec_has_jar(state.tip_jars@, user@) ==> r@ == Seq::<Asset>::empty(),
{
    let mut result: Vec<Asset> = Vec::new();
    let j = match state.find_jar(&user) {
        None => {
            return result;
        },
        Some(j) => j,
    };
    let ghost tips0 = state.tip_jars@[j as int].tips@;
    let mut c: usize = 0;
    while c < state.tip_jars[j].tips.len()
        invariant
            j < state.tip_jars@.len(),
            tips0 == state.tip_jars@[j as int].tips@,
            0 <= c <= tips0.len(),
            result@ == tips0.subrange(0, c as int),
        decreases tips0.len() - c,
    {
        result.push(state.tip_jars[j].tips[c].duplicate());
        c = c + 1;
        proof {
            assert(result@ =~= tips0.subrange(0, c as int));
        }
    }
    proof {
        assert(result@ =~= tips0);
    }
    result
}

} // verus!
