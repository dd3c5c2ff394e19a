use vstd::prelude::*;

pub mod instructions;
pub mod laws;
pub mod ledger;
pub mod state;

pub use state::{
    AccountInfo, DeadlineExtended, ProgramError, Pubkey, Swap, SwapCompleted, SwapError,
    SwapExpired, SwapInitiated, Transfer,
};

pub use instructions::{
    approve_swap, expire_swap, extend_deadline, initiate_swap, ApproveSwap, ExpireSwap,
    ExtendDeadline, InitiateSwap,
};

verus! {

} // verus!
