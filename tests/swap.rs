use fun_swap::{
    approve_swap, expire_swap, extend_deadline, initiate_swap, AccountInfo, ApproveSwap,
    DeadlineExtended, ExpireSwap, ExtendDeadline, InitiateSwap, ProgramError, Pubkey, Swap,
    SwapCompleted, SwapError, SwapExpired, SwapInitiated, Transfer,
};

const AMOUNT_A: u64 = 100000;
const AMOUNT_B: u64 = 200000;
const DEADLINE: i64 = 86400;
const GRACE: i64 = 3600;

fn key(n: u128) -> Pubkey {
    Pubkey { hi: n, lo: n * 7 + 1 }
}

fn party_a() -> Pubkey {
    key(1)
}

fn party_b() -> Pubkey {
    key(2)
}

fn token_a() -> Pubkey {
    key(3)
}

fn token_b() -> Pubkey {
    key(4)
}

fn acct(k: Pubkey, is_signer: bool) -> AccountInfo {
    AccountInfo { key: k, is_signer }
}

fn initiate_ctx() -> InitiateSwap {
    InitiateSwap {
        party_a: acct(party_a(), true),
        party_b: acct(party_b(), false),
        party_a_token_account: acct(token_a(), false),
        party_b_token_account: acct(token_b(), false),
    }
}

fn new_swap() -> Swap {
    initiate_swap(&initiate_ctx(), AMOUNT_A, AMOUNT_B, DEADLINE, GRACE).unwrap().0
}

fn approve_ctx(swap: Swap) -> ApproveSwap {
    ApproveSwap {
        swap,
        party_a: acct(party_a(), true),
        party_b: acct(party_b(), true),
        party_a_token_account: acct(token_a(), false),
        party_b_token_account: acct(token_b(), false),
    }
}

fn expire_ctx(swap: Swap) -> ExpireSwap {
    ExpireSwap {
        swap,
        party_a: acct(party_a(), false),
        party_b: acct(party_b(), false),
        party_a_token_account: acct(token_a(), false),
        party_b_token_account: acct(token_b(), false),
    }
}

fn extend_ctx(swap: Swap) -> ExtendDeadline {
    ExtendDeadline { swap, party_a: acct(party_a(), true) }
}

/// Balances of the four accounts after carrying out `ts` in order.
fn settle(balances: &mut [(Pubkey, i128); 4], ts: &[Transfer]) {
    for t in ts {
        for entry in balances.iter_mut() {
            if entry.0 == t.from {
                entry.1 -= t.amount as i128;
            }
        }
        for entry in balances.iter_mut() {
            if entry.0 == t.to {
                entry.1 += t.amount as i128;
            }
        }
    }
}

fn balance_of(balances: &[(Pubkey, i128); 4], k: Pubkey) -> i128 {
    balances.iter().find(|e| e.0 == k).unwrap().1
}

fn start_balances() -> [(Pubkey, i128); 4] {
    [(party_a(), 0), (party_b(), 0), (token_a(), 500000), (token_b(), 1000000)]
}

#[test]
fn test_initiate_swap() {
    let (swap, event) =
        initiate_swap(&initiate_ctx(), AMOUNT_A, AMOUNT_B, DEADLINE, GRACE).unwrap();
    assert_eq!(swap.party_a, party_a());
    assert_eq!(swap.party_b, party_b());
    assert_eq!(swap.amount_token_a, 100000);
    assert_eq!(swap.amount_token_b, 200000);
    assert_eq!(swap.deadline, 86400);
    assert_eq!(swap.grace_period, 3600);
    assert!(!swap.is_completed);
    assert!(!swap.is_expired);
    assert_eq!(
        event,
        SwapInitiated {
            party_a: party_a(),
            party_b: party_b(),
            amount_token_a: 100000,
            amount_token_b: 200000,
            deadline: 86400,
        }
    );
}

#[test]
fn initiate_needs_party_a_signature() {
    let mut ctx = initiate_ctx();
    ctx.party_a.is_signer = false;
    assert_eq!(
        initiate_swap(&ctx, AMOUNT_A, AMOUNT_B, DEADLINE, GRACE),
        Err(ProgramError::ConstraintSigner)
    );
}

#[test]
fn initiate_accepts_zero_amounts_and_past_deadline() {
    let (swap, _) = initiate_swap(&initiate_ctx(), 0, 0, -5, 0).unwrap();
    assert_eq!(swap.amount_token_a, 0);
    assert_eq!(swap.deadline, -5);
}

#[test]
fn scenario_initiate_then_approve() {
    let mut ctx = approve_ctx(new_swap());
    let (a_to_b, b_to_a, event) = approve_swap(&mut ctx, 86399).unwrap();
    assert_eq!(
        a_to_b,
        Transfer { from: token_a(), to: token_b(), authority: party_a(), amount: 100000 }
    );
    assert_eq!(
        b_to_a,
        Transfer { from: token_b(), to: token_a(), authority: party_b(), amount: 200000 }
    );
    assert_eq!(event, SwapCompleted { party_a: party_a(), party_b: party_b() });
    assert!(ctx.swap.is_completed);
    let mut balances = start_balances();
    settle(&mut balances, &[a_to_b, b_to_a]);
    assert_eq!(balance_of(&balances, token_a()), 500000 - 100000 + 200000);
    assert_eq!(balance_of(&balances, token_b()), 1000000 + 100000 - 200000);
}

#[test]
fn round_trip_keeps_amounts_and_window() {
    let before = new_swap();
    let mut ctx = approve_ctx(before);
    approve_swap(&mut ctx, 0).unwrap();
    assert_eq!(ctx.swap, Swap { is_completed: true, ..before });
}

#[test]
fn approve_at_deadline_fails() {
    let before = approve_ctx(new_swap());
    let mut ctx = before;
    assert_eq!(
        approve_swap(&mut ctx, DEADLINE),
        Err(ProgramError::Swap(SwapError::SwapExpired))
    );
    assert_eq!(ctx, before);
    assert!(!ctx.swap.is_completed);
}

#[test]
fn approve_after_deadline_fails() {
    let mut ctx = approve_ctx(new_swap());
    assert_eq!(
        approve_swap(&mut ctx, i64::MAX),
        Err(ProgramError::Swap(SwapError::SwapExpired))
    );
}

#[test]
fn approve_needs_both_signatures() {
    let mut ctx = approve_ctx(new_swap());
    ctx.party_b.is_signer = false;
    assert_eq!(approve_swap(&mut ctx, 0), Err(ProgramError::ConstraintSigner));
    let mut ctx = approve_ctx(new_swap());
    ctx.party_a.is_signer = false;
    assert_eq!(approve_swap(&mut ctx, 0), Err(ProgramError::ConstraintSigner));
}

#[test]
fn approve_with_foreign_party_fails() {
    let mut ctx = approve_ctx(new_swap());
    ctx.party_b.key = key(9);
    assert_eq!(approve_swap(&mut ctx, 0), Err(ProgramError::ConstraintHasOne));
}

#[test]
fn expire_before_grace_fails() {
    let before = expire_ctx(new_swap());
    let mut ctx = before;
    assert_eq!(
        expire_swap(&mut ctx, DEADLINE + GRACE - 1),
        Err(ProgramError::Swap(SwapError::SwapNotExpired))
    );
    assert_eq!(ctx, before);
    assert_eq!(
        expire_swap(&mut ctx, DEADLINE),
        Err(ProgramError::Swap(SwapError::SwapNotExpired))
    );
}

#[test]
fn expire_refunds_each_party() {
    let mut ctx = expire_ctx(new_swap());
    let (refund_a, refund_b, event) = expire_swap(&mut ctx, DEADLINE + GRACE).unwrap();
    assert_eq!(
        refund_a,
        Transfer { from: token_a(), to: party_a(), authority: party_a(), amount: 100000 }
    );
    assert_eq!(
        refund_b,
        Transfer { from: token_b(), to: party_b(), authority: party_b(), amount: 200000 }
    );
    assert_eq!(event, SwapExpired { party_a: party_a(), party_b: party_b() });
    assert!(ctx.swap.is_expired);
    assert!(!ctx.swap.is_completed);
    let mut balances = start_balances();
    settle(&mut balances, &[refund_a, refund_b]);
    assert_eq!(balance_of(&balances, party_a()), 100000);
    assert_eq!(balance_of(&balances, party_b()), 200000);
}

#[test]
fn expire_with_foreign_party_fails() {
    let mut ctx = expire_ctx(new_swap());
    ctx.party_a.key = key(9);
    assert_eq!(expire_swap(&mut ctx, i64::MAX), Err(ProgramError::ConstraintHasOne));
}

#[test]
fn expire_window_does_not_overflow() {
    let (swap, _) = initiate_swap(&initiate_ctx(), 1, 1, i64::MAX, i64::MAX).unwrap();
    let mut ctx = expire_ctx(swap);
    assert_eq!(
        expire_swap(&mut ctx, i64::MAX),
        Err(ProgramError::Swap(SwapError::SwapNotExpired))
    );
    let (swap, _) = initiate_swap(&initiate_ctx(), 1, 1, i64::MIN, i64::MIN).unwrap();
    let mut ctx = expire_ctx(swap);
    assert!(expire_swap(&mut ctx, i64::MIN).is_ok());
}

#[test]
fn extend_rejects_non_increasing_deadline() {
    let before = extend_ctx(new_swap());
    let mut ctx = before;
    assert_eq!(
        extend_deadline(&mut ctx, DEADLINE),
        Err(ProgramError::Swap(SwapError::InvalidDeadline))
    );
    assert_eq!(
        extend_deadline(&mut ctx, DEADLINE - 1),
        Err(ProgramError::Swap(SwapError::InvalidDeadline))
    );
    assert_eq!(ctx, before);
}

#[test]
fn extend_moves_deadline_forward() {
    let mut ctx = extend_ctx(new_swap());
    assert_eq!(
        extend_deadline(&mut ctx, DEADLINE + 1),
        Ok(DeadlineExtended { new_deadline: DEADLINE + 1 })
    );
    assert_eq!(ctx.swap.deadline, DEADLINE + 1);
    assert_eq!(ctx.swap.amount_token_a, AMOUNT_A);
    let mut approve = approve_ctx(ctx.swap);
    assert!(approve_swap(&mut approve, DEADLINE).is_ok());
}

#[test]
fn extend_needs_party_a() {
    let mut ctx = extend_ctx(new_swap());
    ctx.party_a.is_signer = false;
    assert_eq!(extend_deadline(&mut ctx, DEADLINE + 1), Err(ProgramError::ConstraintSigner));
    let mut ctx = extend_ctx(new_swap());
    ctx.party_a.key = party_b();
    assert_eq!(extend_deadline(&mut ctx, DEADLINE + 1), Err(ProgramError::ConstraintHasOne));
}

// The unguarded design would let expiration run again after approval and
// move tokens a second time; this library rejects it as a terminal record.
#[test]
fn expire_after_approve_is_rejected() {
    let mut approve = approve_ctx(new_swap());
    approve_swap(&mut approve, 10).unwrap();
    let before = expire_ctx(approve.swap);
    let mut ctx = before;
    assert_eq!(
        expire_swap(&mut ctx, DEADLINE + GRACE),
        Err(ProgramError::Swap(SwapError::SwapAlreadyCompleted))
    );
    assert_eq!(ctx, before);
}

#[test]
fn second_approve_is_rejected() {
    let mut ctx = approve_ctx(new_swap());
    approve_swap(&mut ctx, 10).unwrap();
    assert_eq!(
        approve_swap(&mut ctx, 11),
        Err(ProgramError::Swap(SwapError::SwapAlreadyCompleted))
    );
}

#[test]
fn terminal_record_cannot_be_extended_or_reopened() {
    let mut ctx = expire_ctx(new_swap());
    expire_swap(&mut ctx, DEADLINE + GRACE).unwrap();
    assert_eq!(
        expire_swap(&mut ctx, DEADLINE + GRACE + 1),
        Err(ProgramError::Swap(SwapError::SwapAlreadyCompleted))
    );
    let mut extend = extend_ctx(ctx.swap);
    assert_eq!(
        extend_deadline(&mut extend, i64::MAX),
        Err(ProgramError::Swap(SwapError::SwapAlreadyCompleted))
    );
}

#[test]
fn record_size_and_messages() {
    assert_eq!(Swap::LEN, 98);
    assert_eq!(SwapError::SwapExpired.message(), "The swap has expired.");
    assert_eq!(
        SwapError::InvalidDeadline.message(),
        "The new deadline must be greater than the current deadline."
    );
    assert!(new_swap().is_terminal() == false);
}
