use vstd::prelude::*;
use crate::error::FairplayError;

verus! {

/// A 32-byte account address.
#[derive(Debug, Clone, Copy, PartialEq, Eq)]
pub struct Address {
    pub bytes: [u8; 32],
}

/// The campaign aggregate: the reward budget, the scoring window and the
/// running total of the scores that have entered it.
#[derive(Debug, Clone, Copy, PartialEq, Eq)]
pub struct CampaignConfig {
    pub seed: u64,
    pub campaign_id: u8,
    pub total_pool_amount: u128,
    pub start_time: i64,
    pub end_time: i64,
    pub total_score: u128,
    pub no_of_contributors: u32,
    pub created_at: i64,
}

/// The escrow descriptor: the authority over the vault that pays rewards out.
#[derive(Debug, Clone, Copy, PartialEq, Eq)]
pub struct Escrow {
    pub seed: u64,
    pub owner: Address,
    pub campaign_id: u8,
}

/// One contributor's score, computed share and claim status.
///
/// `counted` records that the score has entered the campaign total, so that
/// it enters it at most once.
#[derive(Debug, Clone, Copy, PartialEq, Eq)]
pub struct ContributorState {
    pub seed: u64,
    pub campaign_id: u8,
    pub user: Address,
    pub contribution_score: u128,
    pub reward_share: u128,
    pub claimed: bool,
    pub counted: bool,
    pub created_at: i64,
}

/// The balance of a token account, in the token's smallest unit.
#[derive(Debug, Clone, Copy, PartialEq, Eq)]
pub struct TokenAccount {
    pub amount: u64,
}

impl ContributorState {
    /// A record that holds no score yet.
    pub fn unscored(user: Address) -> (r: ContributorState)
        ensures
            r.user == user,
            r.contribution_score == 0,
            r.reward_share == 0,
            !r.claimed,
            !r.counted,
    {
        ContributorState {
            seed: 0,
            campaign_id: 0,
            user,
            contribution_score: 0,
            reward_share: 0,
            claimed: false,
            counted: false,
            created_at: 0,
        }
    }

    /// A score that has entered the campaign total was within 0 to 100.
    pub open spec fn wf(self) -> bool {
        self.counted ==> self.contribution_score <= 100
    }

    /// The record has entered the campaign total or has been paid, so its
    /// score is final.
    pub open spec fn is_locked(self) -> bool {
        self.counted || self.claimed
    }
}

/// What a transfer of `amount` from `from` to `to` leaves: the new balances,
/// or why the transfer is refused.
pub open spec fn transfer_result(from: u64, to: u64, amount: u64) -> Result<(u64, u64), FairplayError> {
    if from < amount {
        Err(FairplayError::InsufficientFunds)
    } else if to + amount > u64::MAX {
        Err(FairplayError::ArithmeticOverflow)
    } else {
        Ok(((from - amount) as u64, (to + amount) as u64))
    }
}

/// Moves `amount` from one balance to another, or leaves both as they were.
pub fn transfer(from: &mut TokenAccount, to: &mut TokenAccount, amount: u64) -> (r: Result<(), FairplayError>)
    ensures
        match transfer_result(old(from).amount, old(to).amount, amount) {
            Ok((f, t)) => r is Ok && final(from).amount == f && final(to).amount == t,
            Err(e) => r == Err::<(), _>(e) && *final(from) == *old(from) && *final(to) == *old(to),
        },
{
    if from.amount < amount {
        return Err(FairplayError::InsufficientFunds);
    }
    match to.amount.checked_add(amount) {
        Some(t) => {
            from.amount = from.amount - amount;
            to.amount = t;
            Ok(())
        },
        None => Err(FairplayError::ArithmeticOverflow),
    }
}

} // verus!
