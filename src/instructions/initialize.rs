use vstd::prelude::*;
use crate::error::{applied, FairplayError};
use crate::state::{Address, CampaignConfig, Escrow, TokenAccount};

verus! {

/// The records that creating a campaign writes: the campaign aggregate, its
/// escrow descriptor and an empty vault.
#[derive(Debug, Clone, Copy, PartialEq, Eq)]
pub struct Initialize {
    pub sponsor: Address,
    pub user: Address,
    pub escrow: Escrow,
    pub campaign_config: CampaignConfig,
    pub vault: TokenAccount,
}

/// What creating a campaign at time `now` does to `i`.
pub open spec fn initialize_result(
    i: Initialize,
    seed: u64,
    campaign_id: u8,
    total_pool_amount: u128,
    start_time: i64,
    end_time: i64,
    total_score: u128,
    no_of_contributors: u32,
    created_at: i64,
    now: i64,
) -> Result<Initialize, FairplayError> {
    if end_time <= now {
        Err(FairplayError::InvalidEndTime)
    } else {
        Ok(Initialize {
            escrow: Escrow { seed, owner: i.sponsor, campaign_id },
            campaign_config: CampaignConfig {
                seed,
                campaign_id,
                total_pool_amount,
                start_time,
                end_time,
                total_score,
                no_of_contributors,
                created_at,
            },
            vault: TokenAccount { amount: 0 },
            ..i
        })
    }
}

impl Initialize {
    /// Creates the campaign, its escrow descriptor owned by the sponsor, and
    /// an empty vault. Refused with `InvalidEndTime` unless `end_time` is
    /// after `now`.
    pub fn initialize(
        &mut self,
        seed: u64,
        campaign_id: u8,
        total_pool_amount: u128,
        start_time: i64,
        end_time: i64,
        total_score: u128,
        no_of_contributors: u32,
        created_at: i64,
        now: i64,
    ) -> (r: Result<(), FairplayError>)
        ensures
            applied(
                initialize_result(*old(self), seed, campaign_id, total_pool_amount, start_time, end_time,
                    total_score, no_of_contributors, created_at, now),
                r,
                *old(self),
                *final(self),
            ),
            r is Ok <==> end_time > now,
            r is Err ==> r == Err::<(), FairplayError>(FairplayError::InvalidEndTime),
    {
        if end_time <= now {
            return Err(FairplayError::InvalidEndTime);
        }
        self.escrow = Escrow { seed, owner: self.sponsor, campaign_id };
        self.campaign_config = CampaignConfig {
            seed,
            campaign_id,
            total_pool_amount,
            start_time,
            end_time,
            total_score,
            no_of_contributors,
            created_at,
        };
        self.vault = TokenAccount { amount: 0 };
        Ok(())
    }
}

} // verus!
