//! A single order, looked up by id.

use vstd::prelude::*;

use crate::dca::DcaInfo;
use crate::error::ContractError;
use crate::state::spec_has_order;
use crate::state::spec_order_index;
use crate::state::State;

verus! {

/// Reads the order with the given id, or fails when none is stored.
pub fn get_dca_order(state: &State, id: u64) -> (r: Result<DcaInfo, ContractError>)
    requires
        state.wf(),
    ensures
        spec_has_order(state.orders@, id) ==> r == Ok::<DcaInfo, ContractError>(
            state.orders@[spec_order_index(state.orders@, id)],
        ),
        !spec_has_order(state.orders@, id) ==> r == Err::<DcaInfo, ContractError>(
            ContractError::NonExistentDca {},
        ),
{
    match state.find_order(id) {
        Some(i) => Ok(state.orders[i].duplicate()),
        None => Err(ContractError::NonExistentDca {}),
    }
}

} // verus!
