use vstd::prelude::*;
use crate::error::{applied, FairplayError};
use crate::math::{mul_div_floor, mul_div_spec};
use crate::state::{Address, CampaignConfig, ContributorState, Escrow, TokenAccount};

verus! {

/// The records that scoring reads and writes.
#[derive(Debug, Clone, Copy, PartialEq, Eq)]
pub struct Finalize {
    pub sponsor: Address,
    pub user: Address,
    pub escrow: Escrow,
    pub campaign_config: CampaignConfig,
    pub contributor: ContributorState,
    pub vault: TokenAccount,
}

/// What recording a score does to `f` at time `now`.
pub open spec fn assign_score_result(f: Finalize, seed: u64, contribution_score: u128, now: i64) -> Result<Finalize, FairplayError> {
    if now > f.campaign_config.end_time {
        Err(FairplayError::CampaignExpired)
    } else if f.contributor.is_locked() {
        Err(FairplayError::ScoreLocked)
    } else {
        Ok(Finalize {
            contributor: ContributorState {
                seed,
                campaign_id: f.campaign_config.campaign_id,
                user: f.user,
                contribution_score,
                reward_share: 0,
                claimed: false,
                counted: false,
                created_at: now,
            },
            ..f
        })
    }
}

/// The campaign total once the stored score of `c` has entered it: the
/// score is added only the first time.
pub open spec fn total_after(cfg: CampaignConfig, c: ContributorState) -> int {
    if c.counted {
        cfg.total_score as int
    } else {
        cfg.total_score + c.contribution_score
    }
}

/// What aggregating and computing the share for `contribution_score` does to `f`.
pub open spec fn scoring_result(f: Finalize, contribution_score: u128) -> Result<Finalize, FairplayError> {
    let cfg = f.campaign_config;
    let c = f.contributor;
    let total = total_after(cfg, c);
    let share = mul_div_spec(contribution_score as int, cfg.total_pool_amount as int, total);
    if c.contribution_score > 100 {
        Err(FairplayError::IncorrectScores)
    } else if c.campaign_id != cfg.campaign_id {
        Err(FairplayError::CampaignMismatch)
    } else if total > u128::MAX {
        Err(FairplayError::ArithmeticOverflow)
    } else if total == 0 {
        Err(FairplayError::NoTotalScore)
    } else if share > u128::MAX {
        Err(FairplayError::ArithmeticOverflow)
    } else {
        Ok(Finalize {
            campaign_config: CampaignConfig { total_score: total as u128, ..cfg },
            contributor: ContributorState { reward_share: share as u128, counted: true, ..c },
            ..f
        })
    }
}

impl Finalize {
    /// Writes the contributor's score at time `now`. Refused after the
    /// campaign's end time, and once the record has entered the campaign
    /// total or has been paid, so that a paid record cannot be reset.
    pub fn assign_score(&mut self, seed: u64, contribution_score: u128, now: i64) -> (r: Result<(), FairplayError>)
        ensures
            applied(assign_score_result(*old(self), seed, contribution_score, now), r, *old(self), *final(self)),
            now > old(self).campaign_config.end_time ==> r == Err::<(), FairplayError>(FairplayError::CampaignExpired),
    {
        if now > self.campaign_config.end_time {
            return Err(FairplayError::CampaignExpired);
        }
        if self.contributor.counted || self.contributor.claimed {
            return Err(FairplayError::ScoreLocked);
        }
        self.contributor = ContributorState {
            seed,
            campaign_id: self.campaign_config.campaign_id,
            user: self.user,
            contribution_score,
            reward_share: 0,
            claimed: false,
            counted: false,
            created_at: now,
        };
        Ok(())
    }

    /// Adds the stored score to the campaign total (once per record) and sets
    /// the reward share to `floor(contribution_score * pool / total)`.
    pub fn scoring_engine(&mut self, contribution_score: u128) -> (r: Result<(), FairplayError>)
        ensures
            applied(scoring_result(*old(self), contribution_score), r, *old(self), *final(self)),
            old(self).contributor.contribution_score > 100 ==> r == Err::<(), FairplayError>(FairplayError::IncorrectScores),
    {
        if self.contributor.contribution_score > 100 {
            return Err(FairplayError::IncorrectScores);
        }
        if self.contributor.campaign_id != self.campaign_config.campaign_id {
            return Err(FairplayError::CampaignMismatch);
        }
        let total = if self.contributor.counted {
            self.campaign_config.total_score
        } else {
            match self.campaign_config.total_score.checked_add(self.contributor.contribution_score) {
                Some(t) => t,
                None => return Err(FairplayError::ArithmeticOverflow),
            }
        };
        if total == 0 {
            return Err(FairplayError::NoTotalScore);
        }
        let share = match mul_div_floor(contribution_score, self.campaign_config.total_pool_amount, total) {
            Some(s) => s,
            None => return Err(FairplayError::ArithmeticOverflow),
        };
        self.campaign_config.total_score = total;
        self.contributor.reward_share = share;
        self.contributor.counted = true;
        Ok(())
    }
}

} // verus!
