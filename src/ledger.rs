use vstd::prelude::*;

use crate::state::{Pubkey, Transfer};

verus! {

/// Token balances after the ledger carries out `t`: `t.amount` leaves
/// account `t.from` and arrives at account `t.to`.
pub open spec fn apply_transfer(bal: Map<Pubkey, int>, t: Transfer) -> Map<Pubkey, int> {
    let debited = bal.insert(t.from, bal[t.from] - t.amount);
    debited.insert(t.to, debited[t.to] + t.amount)
}

/// Token balances after the ledger carries out `first` and then `second`
/// as one unit.
pub open spec fn apply_pair(bal: Map<Pubkey, int>, first: Transfer, second: Transfer) -> Map<
    Pubkey,
    int,
> {
    apply_transfer(apply_transfer(bal, first), second)
}

} // verus!
