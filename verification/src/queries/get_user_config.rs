//! A user's stored override settings, or the defaults.

use vstd::prelude::*;

use crate::state::spec_user_config;
use crate::state::State;
use crate::user_config::UserConfig;

verus! {

/// Reads the user's override settings.
pub fn get_user_config(state: &State, user: String) -> (r: UserConfig)
    requires
        state.wf(),
    ensures
        r == spec_user_config(*state, user@),
{
    state.user_config_of(&user)
}

} // verus!
