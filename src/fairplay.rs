//! The program's entry points, one per operation, each over the records it
//! touches. The current time is read by the caller and passed in.
use vstd::prelude::*;
use crate::error::{applied, FairplayError};
use crate::instructions::claim::{claim_result, Claim};
use crate::instructions::deposit::{deposit_result, Deposit};
use crate::instructions::finalize::{assign_score_result, scoring_result, Finalize};
use crate::instructions::initialize::{initialize_result, Initialize};

verus! {

/// Creates a campaign; succeeds exactly when `end_time` is after `now`.
pub fn initialize(
    ctx: &mut Initialize,
    seed: u64,
    campaign_id: u8,
    total_pool_amount: u128,
    start_time: i64,
    end_time: i64,
    total_score: u128,
    no_of_contributors: u32,
    created_at: i64,
    now: i64,
) -> (r: Result<(), FairplayError>)
    ensures
        applied(
            initialize_result(*old(ctx), seed, campaign_id, total_pool_amount, start_time, end_time,
                total_score, no_of_contributors, created_at, now),
            r,
            *old(ctx),
            *final(ctx),
        ),
{
    ctx.initialize(seed, campaign_id, total_pool_amount, start_time, end_time, total_score,
        no_of_contributors, created_at, now)
}

/// Moves `amount` from the sponsor into the vault.
pub fn deposit(ctx: &mut Deposit, amount: u64) -> (r: Result<(), FairplayError>)
    ensures
        applied(deposit_result(*old(ctx), amount), r, *old(ctx), *final(ctx)),
{
    ctx.deposit(amount)
}

/// Records a contributor's score at time `now`.
pub fn assign_score(ctx: &mut Finalize, seed: u64, contribution_score: u128, now: i64) -> (r: Result<(), FairplayError>)
    ensures
        applied(assign_score_result(*old(ctx), seed, contribution_score, now), r, *old(ctx), *final(ctx)),
{
    ctx.assign_score(seed, contribution_score, now)
}

/// Aggregates the stored score and computes the contributor's share.
pub fn scoring_engine(ctx: &mut Finalize, contribution_score: u128) -> (r: Result<(), FairplayError>)
    ensures
        applied(scoring_result(*old(ctx), contribution_score), r, *old(ctx), *final(ctx)),
{
    ctx.scoring_engine(contribution_score)
}

/// Pays the contributor its share, once.
pub fn claim_reward(ctx: &mut Claim, reward_share: u64) -> (r: Result<(), FairplayError>)
    ensures
        applied(claim_result(*old(ctx), reward_share), r, *old(ctx), *final(ctx)),
{
    ctx.claim_reward(reward_share)
}

} // verus!
