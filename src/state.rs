use vstd::prelude::*;

verus! {

/// A 32-byte account or party identity, held as two 128-bit halves.
#[derive(Clone, Copy, Debug, PartialEq, Eq, Structural)]
pub struct Pubkey {
    pub hi: u128,
    pub lo: u128,
}

/// The persistent swap record shared by both parties.
///
/// `is_completed` marks a record settled by approval and `is_expired` one
/// refunded by expiration; a record with neither set is pending.
#[derive(Clone, Copy, Debug, PartialEq, Eq, Structural)]
pub struct Swap {
    pub party_a: Pubkey,
    pub party_b: Pubkey,
    pub amount_token_a: u64,
    pub amount_token_b: u64,
    pub deadline: i64,
    pub grace_period: i64,
    pub is_completed: bool,
    pub is_expired: bool,
}

impl Swap {
    /// Serialized size of a record: two keys, four 8-byte fields, two flags.
    pub const LEN: usize = 32 + 32 + 8 + 8 + 8 + 8 + 1 + 1;

    /// A record is pending until approval or expiration has succeeded on it.
    pub open spec fn is_pending(self) -> bool {
        !self.is_completed && !self.is_expired
    }

    pub fn is_terminal(&self) -> (r: bool)
        ensures
            r == !self.is_pending(),
    {
        self.is_completed || self.is_expired
    }
}

/// Errors raised by the swap rules themselves.
#[derive(Clone, Copy, Debug, PartialEq, Eq, Structural)]
pub enum SwapError {
    SwapAlreadyCompleted,
    SwapExpired,
    SwapNotExpired,
    InvalidDeadline,
}

impl SwapError {
    /// The text shown to a user for this error.
    pub open spec fn text(self) -> Seq<char> {
        match self {
            SwapError::SwapAlreadyCompleted => "The swap has already been completed."@,
            SwapError::SwapExpired => "The swap has expired."@,
            SwapError::SwapNotExpired => "The swap is not expired yet."@,
            SwapError::InvalidDeadline => "The new deadline must be greater than the current deadline."@,
        }
    }

    pub fn message(&self) -> (r: &'static str)
        ensures
            r@ == self.text(),
    {
        match self {
            SwapError::SwapAlreadyCompleted => "The swap has already been completed.",
            SwapError::SwapExpired => "The swap has expired.",
            SwapError::SwapNotExpired => "The swap is not expired yet.",
            SwapError::InvalidDeadline => "The new deadline must be greater than the current deadline.",
        }
    }
}

/// Every way an operation can be refused: an account constraint that the
/// caller's accounts break, or one of the swap rules.
#[derive(Clone, Copy, Debug, PartialEq, Eq, Structural)]
pub enum ProgramError {
    /// A supplied party account does not match the party stored in the record.
    ConstraintHasOne,
    /// A party whose signature the operation needs did not sign.
    ConstraintSigner,
    Swap(SwapError),
}

/// An account reference handed to an operation: its key and whether it signed.
#[derive(Clone, Copy, Debug, PartialEq, Eq, Structural)]
pub struct AccountInfo {
    pub key: Pubkey,
    pub is_signer: bool,
}

/// One token movement that the ledger's transfer primitive must carry out:
/// `amount` units from account `from` to account `to`, authorized by `authority`.
#[derive(Clone, Copy, Debug, PartialEq, Eq, Structural)]
pub struct Transfer {
    pub from: Pubkey,
    pub to: Pubkey,
    pub authority: Pubkey,
    pub amount: u64,
}

#[derive(Clone, Copy, Debug, PartialEq, Eq, Structural)]
pub struct SwapInitiated {
    pub party_a: Pubkey,
    pub party_b: Pubkey,
    pub amount_token_a: u64,
    pub amount_token_b: u64,
    pub deadline: i64,
}

#[derive(Clone, Copy, Debug, PartialEq, Eq, Structural)]
pub struct SwapCompleted {
    pub party_a: Pubkey,
    pub party_b: Pubkey,
}

#[derive(Clone, Copy, Debug, PartialEq, Eq, Structural)]
pub struct SwapExpired {
    pub party_a: Pubkey,
    pub party_b: Pubkey,
}

#[derive(Clone, Copy, Debug, PartialEq, Eq, Structural)]
pub struct DeadlineExtended {
    pub new_deadline: i64,
}

} // verus!
