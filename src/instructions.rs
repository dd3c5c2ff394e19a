use vstd::prelude::*;

use crate::state::{
    AccountInfo, DeadlineExtended, ProgramError, Pubkey, Swap, SwapCompleted, SwapError,
    SwapExpired, SwapInitiated, Transfer,
};

verus! {

/// Accounts for creating a swap record; `party_a` pays for it and must sign.
#[derive(Clone, Copy, Debug, PartialEq, Eq, Structural)]
pub struct InitiateSwap {
    pub party_a: AccountInfo,
    pub party_b: AccountInfo,
    pub party_a_token_account: AccountInfo,
    pub party_b_token_account: AccountInfo,
}

/// Accounts for executing a swap; both parties must sign.
#[derive(Clone, Copy, Debug, PartialEq, Eq, Structural)]
pub struct ApproveSwap {
    pub swap: Swap,
    pub party_a: AccountInfo,
    pub party_b: AccountInfo,
    pub party_a_token_account: AccountInfo,
    pub party_b_token_account: AccountInfo,
}

/// Accounts for unwinding a swap; no signature is needed.
#[derive(Clone, Copy, Debug, PartialEq, Eq, Structural)]
pub struct ExpireSwap {
    pub swap: Swap,
    pub party_a: AccountInfo,
    pub party_b: AccountInfo,
    pub party_a_token_account: AccountInfo,
    pub party_b_token_account: AccountInfo,
}

/// Accounts for moving a deadline; `party_a` must sign.
#[derive(Clone, Copy, Debug, PartialEq, Eq, Structural)]
pub struct ExtendDeadline {
    pub swap: Swap,
    pub party_a: AccountInfo,
}

/// What initiation yields: the new record and its event, or the refusal.
pub open spec fn initiate_outcome(
    ctx: InitiateSwap,
    amount_token_a: u64,
    amount_token_b: u64,
    deadline: i64,
    grace_period: i64,
) -> Result<(Swap, SwapInitiated), ProgramError> {
    if !ctx.party_a.is_signer {
        Err(ProgramError::ConstraintSigner)
    } else {
        Ok(
            (
                Swap {
                    party_a: ctx.party_a.key,
                    party_b: ctx.party_b.key,
                    amount_token_a,
                    amount_token_b,
                    deadline,
                    grace_period,
                    is_completed: false,
                    is_expired: false,
                },
                SwapInitiated {
                    party_a: ctx.party_a.key,
                    party_b: ctx.party_b.key,
                    amount_token_a,
                    amount_token_b,
                    deadline,
                },
            ),
        )
    }
}

/// The reason approval at time `now` is refused, if it is.
pub open spec fn approve_refusal(ctx: ApproveSwap, now: i64) -> Option<ProgramError> {
    if ctx.swap.party_a != ctx.party_a.key || ctx.swap.party_b != ctx.party_b.key {
        Some(ProgramError::ConstraintHasOne)
    } else if !ctx.party_a.is_signer || !ctx.party_b.is_signer {
        Some(ProgramError::ConstraintSigner)
    } else if now >= ctx.swap.deadline {
        Some(ProgramError::Swap(SwapError::SwapExpired))
    } else if !ctx.swap.is_pending() {
        Some(ProgramError::Swap(SwapError::SwapAlreadyCompleted))
    } else {
        None
    }
}

/// The two crossing transfers of a successful approval.
pub open spec fn approve_outcome(ctx: ApproveSwap, now: i64) -> Result<
    (Transfer, Transfer, SwapCompleted),
    ProgramError,
> {
    match approve_refusal(ctx, now) {
        Some(e) => Err(e),
        None => Ok(
            (
                Transfer {
                    from: ctx.party_a_token_account.key,
                    to: ctx.party_b_token_account.key,
                    authority: ctx.party_a.key,
                    amount: ctx.swap.amount_token_a,
                },
                Transfer {
                    from: ctx.party_b_token_account.key,
                    to: ctx.party_a_token_account.key,
                    authority: ctx.party_b.key,
                    amount: ctx.swap.amount_token_b,
                },
                SwapCompleted { party_a: ctx.party_a.key, party_b: ctx.party_b.key },
            ),
        ),
    }
}

/// The reason expiration at time `now` is refused, if it is.
pub open spec fn expire_refusal(ctx: ExpireSwap, now: i64) -> Option<ProgramError> {
    if ctx.swap.party_a != ctx.party_a.key || ctx.swap.party_b != ctx.party_b.key {
        Some(ProgramError::ConstraintHasOne)
    } else if now < ctx.swap.deadline + ctx.swap.grace_period {
        Some(ProgramError::Swap(SwapError::SwapNotExpired))
    } else if !ctx.swap.is_pending() {
        Some(ProgramError::Swap(SwapError::SwapAlreadyCompleted))
    } else {
        None
    }
}

/// The two refunds of a successful expiration: each party gets its own amount back.
pub open spec fn expire_outcome(ctx: ExpireSwap, now: i64) -> Result<
    (Transfer, Transfer, SwapExpired),
    ProgramError,
> {
    match expire_refusal(ctx, now) {
        Some(e) => Err(e),
        None => Ok(
            (
                Transfer {
                    from: ctx.party_a_token_account.key,
                    to: ctx.party_a.key,
                    authority: ctx.party_a.key,
                    amount: ctx.swap.amount_token_a,
                },
                Transfer {
                    from: ctx.party_b_token_account.key,
                    to: ctx.party_b.key,
                    authority: ctx.party_b.key,
                    amount: ctx.swap.amount_token_b,
                },
                SwapExpired { party_a: ctx.party_a.key, party_b: ctx.party_b.key },
            ),
        ),
    }
}

/// The reason a deadline extension is refused, if it is.
pub open spec fn extend_refusal(ctx: ExtendDeadline, new_deadline: i64) -> Option<ProgramError> {
    if ctx.swap.party_a != ctx.party_a.key {
        Some(ProgramError::ConstraintHasOne)
    } else if !ctx.party_a.is_signer {
        Some(ProgramError::ConstraintSigner)
    } else if new_deadline <= ctx.swap.deadline {
        Some(ProgramError::Swap(SwapError::InvalidDeadline))
    } else if !ctx.swap.is_pending() {
        Some(ProgramError::Swap(SwapError::SwapAlreadyCompleted))
    } else {
        None
    }
}

pub open spec fn extend_outcome(ctx: ExtendDeadline, new_deadline: i64) -> Result<
    DeadlineExtended,
    ProgramError,
> {
    match extend_refusal(ctx, new_deadline) {
        Some(e) => Err(e),
        None => Ok(DeadlineExtended { new_deadline }),
    }
}

/// The record after a successful approval: settled, all else unchanged.
pub open spec fn approved(s: Swap) -> Swap {
    Swap { is_completed: true, ..s }
}

/// The record after a successful expiration: refunded, all else unchanged.
pub open spec fn expired(s: Swap) -> Swap {
    Swap { is_expired: true, ..s }
}

/// The record after a successful extension: only the deadline moves.
pub open spec fn extended(s: Swap, new_deadline: i64) -> Swap {
    Swap { deadline: new_deadline, ..s }
}

/// Creates a pending swap record from the declared parties, amounts and
/// time window, taken verbatim; no amount or deadline is validated.
pub fn initiate_swap(
    ctx: &InitiateSwap,
    amount_token_a: u64,
    amount_token_b: u64,
    deadline: i64,
    grace_period: i64,
) -> (r: Result<(Swap, SwapInitiated), ProgramError>)
    ensures
        r == initiate_outcome(*ctx, amount_token_a, amount_token_b, deadline, grace_period),
{
    if !ctx.party_a.is_signer {
        return Err(ProgramError::ConstraintSigner);
    }
    let swap = Swap {
        party_a: ctx.party_a.key,
        party_b: ctx.party_b.key,
        amount_token_a,
        amount_token_b,
        deadline,
        grace_period,
        is_completed: false,
        is_expired: false,
    };
    let event = SwapInitiated {
        party_a: ctx.party_a.key,
        party_b: ctx.party_b.key,
        amount_token_a,
        amount_token_b,
        deadline,
    };
    Ok((swap, event))
}

/// Executes a pending swap at ledger time `now`: returns the transfer of
/// `amount_token_a` from party A to party B and of `amount_token_b` from
/// party B to party A, which the ledger must carry out as one unit, and
/// marks the record completed. A refused call leaves the accounts as they were.
pub fn approve_swap(ctx: &mut ApproveSwap, now: i64) -> (r: Result<
    (Transfer, Transfer, SwapCompleted),
    ProgramError,
>)
    ensures
        r == approve_outcome(*old(ctx), now),
        r is Ok ==> *final(ctx) == (ApproveSwap { swap: approved(old(ctx).swap), ..*old(ctx) }),
        r is Err ==> *final(ctx) == *old(ctx),
{
    if ctx.swap.party_a != ctx.party_a.key || ctx.swap.party_b != ctx.party_b.key {
        return Err(ProgramError::ConstraintHasOne);
    }
    if !ctx.party_a.is_signer || !ctx.party_b.is_signer {
        return Err(ProgramError::ConstraintSigner);
    }
    if now >= ctx.swap.deadline {
        return Err(ProgramError::Swap(SwapError::SwapExpired));
    }
    if ctx.swap.is_terminal() {
        return Err(ProgramError::Swap(SwapError::SwapAlreadyCompleted));
    }
    let a_to_b = Transfer {
        from: ctx.party_a_token_account.key,
        to: ctx.party_b_token_account.key,
        authority: ctx.party_a.key,
        amount: ctx.swap.amount_token_a,
    };
    let b_to_a = Transfer {
        from: ctx.party_b_token_account.key,
        to: ctx.party_a_token_account.key,
        authority: ctx.party_b.key,
        amount: ctx.swap.amount_token_b,
    };
    ctx.swap.is_completed = true;
    let event = SwapCompleted { party_a: ctx.party_a.key, party_b: ctx.party_b.key };
    Ok((a_to_b, b_to_a, event))
}

/// Unwinds a pending swap once `now` has reached `deadline + grace_period`:
/// returns the refund of each party's own amount to itself and marks the
/// record expired. A refused call leaves the accounts as they were.
pub fn expire_swap(ctx: &mut ExpireSwap, now: i64) -> (r: Result<
    (Transfer, Transfer, SwapExpired),
    ProgramError,
>)
    ensures
        r == expire_outcome(*old(ctx), now),
        r is Ok ==> *final(ctx) == (ExpireSwap { swap: expired(old(ctx).swap), ..*old(ctx) }),
        r is Err ==> *final(ctx) == *old(ctx),
{
    if ctx.swap.party_a != ctx.party_a.key || ctx.swap.party_b != ctx.party_b.key {
        return Err(ProgramError::ConstraintHasOne);
    }
    let release: i128 = ctx.swap.deadline as i128 + ctx.swap.grace_period as i128;
    if (now as i128) < release {
        return Err(ProgramError::Swap(SwapError::SwapNotExpired));
    }
    if ctx.swap.is_terminal() {
        return Err(ProgramError::Swap(SwapError::SwapAlreadyCompleted));
    }
    let refund_a = Transfer {
        from: ctx.party_a_token_account.key,
        to: ctx.party_a.key,
        authority: ctx.party_a.key,
        amount: ctx.swap.amount_token_a,
    };
    let refund_b = Transfer {
        from: ctx.party_b_token_account.key,
        to: ctx.party_b.key,
        authority: ctx.party_b.key,
        amount: ctx.swap.amount_token_b,
    };
    ctx.swap.is_expired = true;
    let event = SwapExpired { party_a: ctx.party_a.key, party_b: ctx.party_b.key };
    Ok((refund_a, refund_b, event))
}

/// Moves the deadline of a pending swap strictly forward, on party A's signature.
pub fn extend_deadline(ctx: &mut ExtendDeadline, new_deadline: i64) -> (r: Result<
    DeadlineExtended,
    ProgramError,
>)
    ensures
        r == extend_outcome(*old(ctx), new_deadline),
        r is Ok ==> *final(ctx) == (ExtendDeadline {
            swap: extended(old(ctx).swap, new_deadline),
            ..*old(ctx)
        }),
        r is Err ==> *final(ctx) == *old(ctx),
{
    if ctx.swap.party_a != ctx.party_a.key {
        return Err(ProgramError::ConstraintHasOne);
    }
    if !ctx.party_a.is_signer {
        return Err(ProgramError::ConstraintSigner);
    }
    if new_deadline <= ctx.swap.deadline {
        return Err(ProgramError::Swap(SwapError::InvalidDeadline));
    }
    if ctx.swap.is_terminal() {
        return Err(ProgramError::Swap(SwapError::SwapAlreadyCompleted));
    }
    ctx.swap.deadline = new_deadline;
    Ok(DeadlineExtended { new_deadline })
}

} // verus!
