//! Properties that relate several operations.
use vstd::prelude::*;
use crate::error::FairplayError;
use crate::instructions::claim::{claim_result, Claim};
use crate::instructions::finalize::{assign_score_result, scoring_result, Finalize};

verus! {

/// A contributor's stored score enters the campaign total at most once:
/// after two successful aggregations in a row the total has grown by that
/// score if it was not yet counted, and not at all otherwise; and once
/// counted, the score can no longer be rewritten to be counted again.
pub proof fn lemma_score_counted_once(
    f: Finalize,
    first: u128,
    second: u128,
    seed: u64,
    rescore: u128,
    now: i64,
)
    requires
        scoring_result(f, first) is Ok,
        scoring_result(scoring_result(f, first)->Ok_0, second) is Ok,
    ensures
        ({
            let f1 = scoring_result(f, first)->Ok_0;
            let f2 = scoring_result(f1, second)->Ok_0;
            &&& f2.campaign_config.total_score == f1.campaign_config.total_score
            &&& f1.campaign_config.total_score == f.campaign_config.total_score
                + if f.contributor.counted { 0 } else { f.contributor.contribution_score as int }
            &&& f2.contributor.contribution_score == f.contributor.contribution_score
            &&& assign_score_result(f1, seed, rescore, now) is Err
        }),
{
}

/// A paid record cannot be paid again, whatever amount is asked for; and a
/// payment moves exactly the amount from the vault to the contributor, so
/// their sum is unchanged.
pub proof fn lemma_claim_once_and_conserved(c: Claim, amount: u64, again: u64)
    requires
        claim_result(c, amount) is Ok,
    ensures
        ({
            let c1 = claim_result(c, amount)->Ok_0;
            &&& c1.vault.amount == c.vault.amount - amount
            &&& c1.user_token_account.amount == c.user_token_account.amount + amount
            &&& c1.vault.amount + c1.user_token_account.amount
                == c.vault.amount + c.user_token_account.amount
            &&& c1.contributor.claimed
            &&& claim_result(c1, again) == Err::<Claim, FairplayError>(FairplayError::AlreadyClaimed)
        }),
{
}

/// The campaign total never decreases: aggregation adds the stored score
/// or nothing, and recording a score leaves the campaign untouched. Every
/// operation on the records keeps a counted score within 0 to 100.
pub proof fn lemma_total_grows_and_record_stays_valid(f: Finalize, seed: u64, score: u128, now: i64)
    requires
        f.contributor.wf(),
    ensures
        scoring_result(f, score) matches Ok(n) ==> n.campaign_config.total_score >= f.campaign_config.total_score
            && n.contributor.wf(),
        assign_score_result(f, seed, score, now) matches Ok(n) ==> n.campaign_config == f.campaign_config
            && n.contributor.wf(),
{
}

} // verus!
