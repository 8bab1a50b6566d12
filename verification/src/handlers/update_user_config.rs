//! Storing a user's own override settings, consulted wherever a hop or
//! spread cap resolves and the order itself carries no override.

use vstd::prelude::*;

use crate::error::ContractError;
use crate::msg::MessageInfo;
use crate::response::is_text_attr;
use crate::response::push_text_attr;
use crate::response::Attribute;
use crate::response::Response;
use crate::state::lemma_user_config_entry;
use crate::state::spec_user_config;
use crate::state::State;
use crate::state::UserConfigEntry;
use crate::user_config::UserConfig;

verus! {

/// Stores the sender's override settings, replacing any stored before.
///
/// Afterwards the sender's stored configuration holds exactly the given
/// overrides; every other user's stays as it was, and nothing else
/// changes.  This operation does not fail.
#[verifier::loop_isolation(false)]
pub fn update_user_config(
    state: &mut State,
    info: &MessageInfo,
    max_hops: Option<u32>,
    max_spread: Option<u128>,
) -> (r: Result<Response, ContractError>)
    requires
        old(state).wf(),
    ensures
        final(state).wf(),
        r is Ok,
        final(state).config == old(state).config,
        final(state).orders == old(state).orders,
        final(state).dca_id == old(state).dca_id,
        final(state).tip_jars == old(state).tip_jars,
        spec_user_config(*final(state), info.sender@) == (UserConfig { max_hops, max_spread }),
        forall|o: Seq<char>|
            o != info.sender@ ==> #[trigger] spec_user_config(*final(state), o)
                == spec_user_config(*old(state), o),
        r matches Ok(resp) ==> resp.messages@.len() == 0 && resp.event is None
            && resp.attributes@.len() == 1 && is_text_attr(
            resp.attributes@[0],
            "action"@,
            "update_user_config"@,
        ),
{
    let ghost s1 = *state;
    let mut i: usize = 0;
    let mut found: Option<usize> = None;
    while i < state.user_configs.len() && found.is_none()
        invariant
            *state == s1,
            0 <= i <= s1.user_configs@.len(),
            match found {
                Some(f) => f < s1.user_configs@.len() && s1.user_configs@[
                    f as int
                ].owner@ == info.sender@,
                None => forall|j: int|
                    0 <= j < i ==> (#[trigger] s1.user_configs@[j].owner@) != info.sender@,
            },
        decreases s1.user_configs@.len() - i + (if found is None {
            1int
        } else {
            0int
        }),
    {
        if state.user_configs[i].owner == info.sender {
            found = Some(i);
        } else {
            i = i + 1;
        }
    }
    match found {
        Some(f) => {
            state.user_configs[f].config = UserConfig { max_hops, max_spread };
            proof {
                lemma_user_config_entry(*state, info.sender@, f as int);
                assert forall|o: Seq<char>| o != info.sender@ implies #[trigger] spec_user_config(
                    *state,
                    o,
                ) == spec_user_config(s1, o) by {
                    lemma_user_frame(s1, *state, f as int, o);
                }
            }
        },
        None => {
            let entry = UserConfigEntry {
                owner: info.sender.clone(),
                config: UserConfig { max_hops, max_spread },
            };
            state.user_configs.push(entry);
            proof {
                let n = s1.user_configs@.len() as int;
                assert forall|k: int, l: int|
                    0 <= k < l < state.user_configs@.len() implies (
                #[trigger] state.user_configs@[k].owner@) != (
                #[trigger] state.user_configs@[l].owner@) by {
                    if l < n {
                        assert(s1.user_configs@[k].owner@ != s1.user_configs@[l].owner@);
                    }
                }
                lemma_user_config_entry(*state, info.sender@, n);
                assert forall|o: Seq<char>| o != info.sender@ implies #[trigger] spec_user_config(
                    *state,
                    o,
                ) == spec_user_config(s1, o) by {
                    lemma_user_frame_push(s1, *state, o);
                }
            }
        },
    }
    let mut attrs: Vec<Attribute> = Vec::new();
    push_text_attr(&mut attrs, "action", "update_user_config");
    Ok(Response { messages: Vec::new(), attributes: attrs, event: None })
}

/// Replacing one user's stored configuration leaves every other user's
/// resolved configuration unchanged.
proof fn lemma_user_frame(s1: State, s2: State, f: int, o: Seq<char>)
    requires
        s1.wf(),
        0 <= f < s1.user_configs@.len(),
        s2.user_configs@.len() == s1.user_configs@.len(),
        forall|k: int|
            0 <= k < s1.user_configs@.len() && k != f ==> (#[trigger] s2.user_configs@[k]) == s1.user_configs@[k],
        s2.user_configs@[f].owner@ == s1.user_configs@[f].owner@,
        o != s1.user_configs@[f].owner@,
    ensures
        spec_user_config(s2, o) == spec_user_config(s1, o),
{
    assert forall|k: int, l: int|
        0 <= k < l < s2.user_configs@.len() implies (#[trigger] s2.user_configs@[k].owner@) != (
    #[trigger] s2.user_configs@[l].owner@) by {
        assert(s1.user_configs@[k].owner@ != s1.user_configs@[l].owner@);
    }
    if exists|i: int|
        0 <= i < s1.user_configs@.len() && (#[trigger] s1.user_configs@[i].owner@) == o {
        let i = choose|i: int|
            0 <= i < s1.user_configs@.len() && (#[trigger] s1.user_configs@[i].owner@) == o;
        assert(i != f);
        lemma_user_config_entry(s1, o, i);
        lemma_user_config_entry(s2, o, i);
    } else {
        if exists|i: int|
            0 <= i < s2.user_configs@.len() && (#[trigger] s2.user_configs@[i].owner@) == o {
            let i = choose|i: int|
                0 <= i < s2.user_configs@.len() && (#[trigger] s2.user_configs@[i].owner@) == o;
            assert(i != f);
            assert(s1.user_configs@[i].owner@ == o);
            assert(false);
        }
    }
}

/// Appending a configuration for a new user leaves every other user's
/// resolved configuration unchanged.
proof fn lemma_user_frame_push(s1: State, s2: State, o: Seq<char>)
    requires
        s1.wf(),
        s2.user_configs@.len() == s1.user_configs@.len() + 1,
        forall|k: int|
            0 <= k < s1.user_configs@.len() ==> (#[trigger] s2.user_configs@[k])
                == s1.user_configs@[k],
        forall|k: int, l: int|
            0 <= k < l < s2.user_configs@.len() ==> (#[trigger] s2.user_configs@[k].owner@) != (
            #[trigger] s2.user_configs@[l].owner@),
        o != s2.user_configs@[s1.user_configs@.len() as int].owner@,
    ensures
        spec_user_config(s2, o) == spec_user_config(s1, o),
{
    let n = s1.user_configs@.len() as int;
    if exists|i: int|
        0 <= i < s1.user_configs@.len() && (#[trigger] s1.user_configs@[i].owner@) == o {
        let i = choose|i: int|
            0 <= i < s1.user_configs@.len() && (#[trigger] s1.user_configs@[i].owner@) == o;
        lemma_user_config_entry(s1, o, i);
        lemma_user_config_entry(s2, o, i);
    } else {
        if exists|i: int|
            0 <= i < s2.user_configs@.len() && (#[trigger] s2.user_configs@[i].owner@) == o {
            let i = choose|i: int|
                0 <= i < s2.user_configs@.len() && (#[trigger] s2.user_configs@[i].owner@) == o;
            assert(i != n);
            assert(s1.user_configs@[i].owner@ == o);
            assert(false);
        }
    }
}

} // verus!
