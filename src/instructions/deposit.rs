use vstd::prelude::*;
use crate::error::{applied, FairplayError};
use crate::state::{transfer, transfer_result, Address, CampaignConfig, ContributorState, Escrow, TokenAccount};

verus! {

/// The records that a sponsor's deposit reads and writes.
#[derive(Debug, Clone, Copy, PartialEq, Eq)]
pub struct Deposit {
    pub sponsor: Address,
    pub user: Address,
    pub escrow: Escrow,
    pub campaign_config: CampaignConfig,
    pub contributor: ContributorState,
    pub vault: TokenAccount,
    pub sponsor_token_account: TokenAccount,
}

/// What depositing `amount` does to `d`: it moves from the sponsor's account
/// into the vault.
pub open spec fn deposit_result(d: Deposit, amount: u64) -> Result<Deposit, FairplayError> {
    match transfer_result(d.sponsor_token_account.amount, d.vault.amount, amount) {
        Err(e) => Err(e),
        Ok((s, v)) => Ok(Deposit {
            sponsor_token_account: TokenAccount { amount: s },
            vault: TokenAccount { amount: v },
            ..d
        }),
    }
}

impl Deposit {
    /// Moves `amount` from the sponsor's account into the vault; refused with
    /// `InsufficientFunds` when the sponsor holds less.
    pub fn deposit(&mut self, amount: u64) -> (r: Result<(), FairplayError>)
        ensures
            applied(deposit_result(*old(self), amount), r, *old(self), *final(self)),
            old(self).sponsor_token_account.amount < amount <==> r == Err::<(), FairplayError>(FairplayError::InsufficientFunds),
    {
        transfer(&mut self.sponsor_token_account, &mut self.vault, amount)
    }
}

} // verus!
