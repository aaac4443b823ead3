use vstd::prelude::*;
use crate::tools::Cycles;
use crate::types::UserId;

verus! {

/// A user-canister tells the CTS that its lifetime is over, with the cycles it still holds.
pub struct UserCanisterLifetimeTerminationQuest {
    pub user_id: UserId,
    pub user_cycles_balance: Cycles,
}

} // verus!
