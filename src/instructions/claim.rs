use vstd::prelude::*;
use crate::error::{applied, FairplayError};
use crate::state::{transfer, transfer_result, Address, CampaignConfig, ContributorState, Escrow, TokenAccount};

verus! {

/// The records that paying a contributor reads and writes.
#[derive(Debug, Clone, Copy, PartialEq, Eq)]
pub struct Claim {
    pub sponsor: Address,
    pub user: Address,
    pub escrow: Escrow,
    pub campaign_config: CampaignConfig,
    pub contributor: ContributorState,
    pub vault: TokenAccount,
    pub user_token_account: TokenAccount,
}

/// What paying `reward_share` does to `c`: the vault pays the contributor
/// and the record becomes claimed, all together or not at all.
pub open spec fn claim_result(c: Claim, reward_share: u64) -> Result<Claim, FairplayError> {
    if c.contributor.claimed {
        Err(FairplayError::AlreadyClaimed)
    } else if reward_share != c.contributor.reward_share {
        Err(FairplayError::ClaimMismatch)
    } else {
        match transfer_result(c.vault.amount, c.user_token_account.amount, reward_share) {
            Err(e) => Err(e),
            Ok((v, u)) => Ok(Claim {
                vault: TokenAccount { amount: v },
                user_token_account: TokenAccount { amount: u },
                contributor: ContributorState { claimed: true, ..c.contributor },
                ..c
            }),
        }
    }
}

impl Claim {
    /// Pays the contributor its stored reward share from the vault, once.
    /// The amount asked for must equal the stored share.
    pub fn claim_reward(&mut self, reward_share: u64) -> (r: Result<(), FairplayError>)
        ensures
            applied(claim_result(*old(self), reward_share), r, *old(self), *final(self)),
            old(self).contributor.claimed ==> r == Err::<(), FairplayError>(FairplayError::AlreadyClaimed),
            r is Ok ==> final(self).vault.amount == old(self).vault.amount - reward_share
                && final(self).user_token_account.amount == old(self).user_token_account.amount + reward_share
                && final(self).contributor.claimed,
    {
        if self.contributor.claimed {
            return Err(FairplayError::AlreadyClaimed);
        }
        if reward_share as u128 != self.contributor.reward_share {
            return Err(FairplayError::ClaimMismatch);
        }
        match transfer(&mut self.vault, &mut self.user_token_account, reward_share) {
            Ok(()) => {
                self.contributor.claimed = true;
                Ok(())
            },
            Err(e) => Err(e),
        }
    }
}

} // verus!
