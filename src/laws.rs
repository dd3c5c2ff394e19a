use vstd::prelude::*;

use crate::instructions::{
    approve_outcome, approved, expire_outcome, expired, extend_outcome, extended,
    initiate_outcome, ApproveSwap, ExpireSwap, ExtendDeadline, InitiateSwap,
};
use crate::ledger::apply_pair;
use crate::state::{ProgramError, Pubkey, SwapError, Transfer};

verus! {

/// Initiating a swap and approving it, with both parties signing, before the
/// deadline moves exactly `amount_token_a` from party A's token account to
/// party B's and exactly `amount_token_b` the other way, and completes the record.
pub proof fn lemma_round_trip(
    init: InitiateSwap,
    amount_token_a: u64,
    amount_token_b: u64,
    deadline: i64,
    grace_period: i64,
    ctx: ApproveSwap,
    now: i64,
    bal: Map<Pubkey, int>,
)
    requires
        init.party_a.is_signer,
        ctx.swap == initiate_outcome(
            init,
            amount_token_a,
            amount_token_b,
            deadline,
            grace_period,
        )->Ok_0.0,
        ctx.party_a.key == init.party_a.key,
        ctx.party_b.key == init.party_b.key,
        ctx.party_a.is_signer,
        ctx.party_b.is_signer,
        ctx.party_a_token_account.key != ctx.party_b_token_account.key,
        now < deadline,
    ensures
        initiate_outcome(init, amount_token_a, amount_token_b, deadline, grace_period) is Ok,
        approve_outcome(ctx, now) is Ok,
        ({
            let (first, second, _) = approve_outcome(ctx, now)->Ok_0;
            let a = ctx.party_a_token_account.key;
            let b = ctx.party_b_token_account.key;
            &&& first == Transfer {
                from: a,
                to: b,
                authority: init.party_a.key,
                amount: amount_token_a,
            }
            &&& second == Transfer {
                from: b,
                to: a,
                authority: init.party_b.key,
                amount: amount_token_b,
            }
            &&& apply_pair(bal, first, second) == bal.insert(
                a,
                bal[a] - amount_token_a + amount_token_b,
            ).insert(b, bal[b] + amount_token_a - amount_token_b)
        }),
        approved(ctx.swap).is_completed,
{
    let (first, second, _) = approve_outcome(ctx, now)->Ok_0;
    let a = ctx.party_a_token_account.key;
    let b = ctx.party_b_token_account.key;
    assert(apply_pair(bal, first, second) =~= bal.insert(
        a,
        bal[a] - amount_token_a + amount_token_b,
    ).insert(b, bal[b] + amount_token_a - amount_token_b));
}

/// Approval with valid accounts at or after the deadline always fails with
/// `SwapExpired`, so no transfer is made and the record stays as it was.
pub proof fn lemma_deadline_guard(ctx: ApproveSwap, now: i64)
    requires
        ctx.swap.party_a == ctx.party_a.key,
        ctx.swap.party_b == ctx.party_b.key,
        ctx.party_a.is_signer,
        ctx.party_b.is_signer,
        now >= ctx.swap.deadline,
    ensures
        approve_outcome(ctx, now) is Err,
        approve_outcome(ctx, now)->Err_0 == ProgramError::Swap(SwapError::SwapExpired),
{
}

/// Expiration with valid accounts before `deadline + grace_period` always
/// fails with `SwapNotExpired`, so no transfer is made.
pub proof fn lemma_grace_guard(ctx: ExpireSwap, now: i64)
    requires
        ctx.swap.party_a == ctx.party_a.key,
        ctx.swap.party_b == ctx.party_b.key,
        now < ctx.swap.deadline + ctx.swap.grace_period,
    ensures
        expire_outcome(ctx, now) is Err,
        expire_outcome(ctx, now)->Err_0 == ProgramError::Swap(SwapError::SwapNotExpired),
{
}

/// Expiration of a pending swap at or after `deadline + grace_period` returns
/// `amount_token_a` to party A and `amount_token_b` to party B, each from its
/// own token account: an identity refund, not a swap.
pub proof fn lemma_refund(ctx: ExpireSwap, now: i64, bal: Map<Pubkey, int>)
    requires
        ctx.swap.party_a == ctx.party_a.key,
        ctx.swap.party_b == ctx.party_b.key,
        ctx.swap.is_pending(),
        now >= ctx.swap.deadline + ctx.swap.grace_period,
        ctx.party_a.key != ctx.party_b.key,
        ctx.party_a_token_account.key != ctx.party_b_token_account.key,
        ctx.party_a_token_account.key != ctx.party_b.key,
        ctx.party_b_token_account.key != ctx.party_a.key,
    ensures
        expire_outcome(ctx, now) is Ok,
        ({
            let (first, second, _) = expire_outcome(ctx, now)->Ok_0;
            let pa = ctx.party_a.key;
            let pb = ctx.party_b.key;
            let ta = ctx.party_a_token_account.key;
            let tb = ctx.party_b_token_account.key;
            &&& first == Transfer {
                from: ta,
                to: pa,
                authority: pa,
                amount: ctx.swap.amount_token_a,
            }
            &&& second == Transfer {
                from: tb,
                to: pb,
                authority: pb,
                amount: ctx.swap.amount_token_b,
            }
            &&& ta != pa ==> apply_pair(bal, first, second)[pa] == bal[pa]
                + ctx.swap.amount_token_a
            &&& tb != pb ==> apply_pair(bal, first, second)[pb] == bal[pb]
                + ctx.swap.amount_token_b
        }),
        expired(ctx.swap).is_expired,
{
}

/// A deadline extension with valid accounts fails with `InvalidDeadline`
/// whenever the new deadline does not exceed the stored one; on a pending
/// record with a later deadline it succeeds and strictly increases it.
pub proof fn lemma_extension_monotone(ctx: ExtendDeadline, new_deadline: i64)
    requires
        ctx.swap.party_a == ctx.party_a.key,
        ctx.party_a.is_signer,
    ensures
        new_deadline <= ctx.swap.deadline ==> extend_outcome(ctx, new_deadline) is Err
            && extend_outcome(ctx, new_deadline)->Err_0 == ProgramError::Swap(SwapError::InvalidDeadline),
        new_deadline > ctx.swap.deadline && ctx.swap.is_pending() ==> {
            &&& extend_outcome(ctx, new_deadline) is Ok
            &&& extended(ctx.swap, new_deadline).deadline > ctx.swap.deadline
        },
{
}

/// Once approval has succeeded, neither expiration nor a second approval of
/// the resulting record can move tokens again, at any time and with any accounts.
pub proof fn lemma_approve_is_terminal(
    ctx: ApproveSwap,
    now: i64,
    next_expire: ExpireSwap,
    later: i64,
    next_approve: ApproveSwap,
    again: i64,
)
    requires
        approve_outcome(ctx, now) is Ok,
        next_expire.swap == approved(ctx.swap),
        next_approve.swap == approved(ctx.swap),
    ensures
        expire_outcome(next_expire, later) is Err,
        approve_outcome(next_approve, again) is Err,
        later >= ctx.swap.deadline + ctx.swap.grace_period && next_expire.party_a.key
            == ctx.swap.party_a && next_expire.party_b.key == ctx.swap.party_b
            ==> expire_outcome(next_expire, later)->Err_0 == ProgramError::Swap(SwapError::SwapAlreadyCompleted),
{
}

/// Once expiration has succeeded, neither approval nor a second expiration
/// of the resulting record can move tokens again, at any time and with any accounts.
pub proof fn lemma_expire_is_terminal(
    ctx: ExpireSwap,
    now: i64,
    next_approve: ApproveSwap,
    later: i64,
    next_expire: ExpireSwap,
    again: i64,
)
    requires
        expire_outcome(ctx, now) is Ok,
        next_approve.swap == expired(ctx.swap),
        next_expire.swap == expired(ctx.swap),
    ensures
        approve_outcome(next_approve, later) is Err,
        expire_outcome(next_expire, again) is Err,
{
}


/// Every successful transition keeps the amounts and parties fixed, never
/// moves the deadline backwards, and only approval sets `is_completed`.
pub proof fn lemma_record_invariants(
    a: ApproveSwap,
    now_a: i64,
    e: ExpireSwap,
    now_e: i64,
    x: ExtendDeadline,
    new_deadline: i64,
)
    ensures
        approve_outcome(a, now_a) is Ok ==> {
            &&& approved(a.swap).amount_token_a == a.swap.amount_token_a
            &&& approved(a.swap).amount_token_b == a.swap.amount_token_b
            &&& approved(a.swap).deadline == a.swap.deadline
            &&& approved(a.swap).is_completed && !a.swap.is_completed
        },
        expire_outcome(e, now_e) is Ok ==> {
            &&& expired(e.swap).amount_token_a == e.swap.amount_token_a
            &&& expired(e.swap).amount_token_b == e.swap.amount_token_b
            &&& expired(e.swap).deadline == e.swap.deadline
            &&& !expired(e.swap).is_completed
        },
        extend_outcome(x, new_deadline) is Ok ==> {
            &&& extended(x.swap, new_deadline).amount_token_a == x.swap.amount_token_a
            &&& extended(x.swap, new_deadline).amount_token_b == x.swap.amount_token_b
            &&& extended(x.swap, new_deadline).party_a == x.swap.party_a
            &&& extended(x.swap, new_deadline).party_b == x.swap.party_b
            &&& extended(x.swap, new_deadline).deadline > x.swap.deadline
            &&& extended(x.swap, new_deadline).is_completed == x.swap.is_completed
        },
{
}

} // verus!
