//! The cycles-transfer-station canister: its state, and what each of its methods decides and
//! changes, given the caller, the clock and what the other canisters answered.

pub mod data;
pub mod controller;
pub mod frontcode;
pub mod upgrade;
pub mod calls;
pub mod new_user;
pub mod burn_icp;
pub mod controller_calls;
