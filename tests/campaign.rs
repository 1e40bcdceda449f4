use fairplay::fairplay::{assign_score, claim_reward, deposit, initialize, scoring_engine};
use fairplay::math::mul_div_floor;
use fairplay::{
    Address, CampaignConfig, Claim, ContributorState, Deposit, Escrow, FairplayError, Finalize,
    Initialize, InitializeEscrow, TokenAccount,
};

fn addr(b: u8) -> Address {
    Address { bytes: [b; 32] }
}

fn escrow() -> Escrow {
    Escrow { seed: 7, owner: addr(1), campaign_id: 3 }
}

fn campaign(pool: u128, end_time: i64) -> CampaignConfig {
    CampaignConfig {
        seed: 7,
        campaign_id: 3,
        total_pool_amount: pool,
        start_time: 0,
        end_time,
        total_score: 0,
        no_of_contributors: 2,
        created_at: 0,
    }
}

fn finalize_for(user: u8, cfg: CampaignConfig) -> Finalize {
    Finalize {
        sponsor: addr(1),
        user: addr(user),
        escrow: escrow(),
        campaign_config: cfg,
        contributor: ContributorState::unscored(addr(user)),
        vault: TokenAccount { amount: 0 },
    }
}

fn empty_initialize() -> Initialize {
    Initialize {
        sponsor: addr(1),
        user: addr(2),
        escrow: Escrow { seed: 0, owner: addr(0), campaign_id: 0 },
        campaign_config: campaign(0, 0),
        vault: TokenAccount { amount: 9 },
    }
}

fn claim_for(contributor: ContributorState, vault: u64, user_balance: u64) -> Claim {
    Claim {
        sponsor: addr(1),
        user: contributor.user,
        escrow: escrow(),
        campaign_config: campaign(1000, 100),
        contributor,
        vault: TokenAccount { amount: vault },
        user_token_account: TokenAccount { amount: user_balance },
    }
}

#[test]
fn initialize_with_future_end_time_creates_records() {
    let mut i = empty_initialize();
    let r = initialize(&mut i, 7, 3, 1000, 10, 101, 0, 2, 50, 100);
    assert_eq!(r, Ok(()));
    assert_eq!(i.campaign_config.total_pool_amount, 1000);
    assert_eq!(i.campaign_config.end_time, 101);
    assert_eq!(i.campaign_config.created_at, 50);
    assert_eq!(i.escrow, Escrow { seed: 7, owner: addr(1), campaign_id: 3 });
    assert_eq!(i.vault.amount, 0);
}

#[test]
fn initialize_with_end_time_not_in_future_fails() {
    for end in [100i64, 99, i64::MIN] {
        let mut i = empty_initialize();
        let before = i;
        let r = initialize(&mut i, 7, 3, 1000, 10, end, 0, 2, 50, 100);
        assert_eq!(r, Err(FairplayError::InvalidEndTime));
        assert_eq!(i, before);
    }
}

#[test]
fn initialize_escrow_sets_owner_to_sponsor() {
    let mut e = InitializeEscrow {
        sponsor: addr(4),
        user: addr(5),
        escrow: Escrow { seed: 0, owner: addr(0), campaign_id: 0 },
    };
    e.initialize_escrow(11, 2);
    assert_eq!(e.escrow, Escrow { seed: 11, owner: addr(4), campaign_id: 2 });
}

#[test]
fn deposit_moves_funds_into_vault() {
    let mut d = Deposit {
        sponsor: addr(1),
        user: addr(2),
        escrow: escrow(),
        campaign_config: campaign(1000, 100),
        contributor: ContributorState::unscored(addr(2)),
        vault: TokenAccount { amount: 10 },
        sponsor_token_account: TokenAccount { amount: 500 },
    };
    assert_eq!(deposit(&mut d, 300), Ok(()));
    assert_eq!(d.vault.amount, 310);
    assert_eq!(d.sponsor_token_account.amount, 200);
    assert_eq!(d.deposit(200), Ok(()));
    assert_eq!(d.vault.amount, 510);
    assert_eq!(d.sponsor_token_account.amount, 0);
}

#[test]
fn deposit_beyond_balance_fails_insufficient_funds() {
    let mut d = Deposit {
        sponsor: addr(1),
        user: addr(2),
        escrow: escrow(),
        campaign_config: campaign(1000, 100),
        contributor: ContributorState::unscored(addr(2)),
        vault: TokenAccount { amount: 10 },
        sponsor_token_account: TokenAccount { amount: 99 },
    };
    let before = d;
    assert_eq!(d.deposit(100), Err(FairplayError::InsufficientFunds));
    assert_eq!(d, before);
}

#[test]
fn deposit_overflowing_vault_fails() {
    let mut d = Deposit {
        sponsor: addr(1),
        user: addr(2),
        escrow: escrow(),
        campaign_config: campaign(1000, 100),
        contributor: ContributorState::unscored(addr(2)),
        vault: TokenAccount { amount: u64::MAX },
        sponsor_token_account: TokenAccount { amount: 1 },
    };
    assert_eq!(d.deposit(1), Err(FairplayError::ArithmeticOverflow));
    assert_eq!(d.vault.amount, u64::MAX);
}

#[test]
fn assign_score_writes_record() {
    let mut f = finalize_for(2, campaign(1000, 100));
    assert_eq!(assign_score(&mut f, 9, 80, 100), Ok(()));
    assert_eq!(f.contributor.seed, 9);
    assert_eq!(f.contributor.campaign_id, 3);
    assert_eq!(f.contributor.user, addr(2));
    assert_eq!(f.contributor.contribution_score, 80);
    assert_eq!(f.contributor.reward_share, 0);
    assert!(!f.contributor.claimed);
    assert_eq!(f.contributor.created_at, 100);
}

#[test]
fn assign_score_after_end_time_fails_for_any_score() {
    for score in [0u128, 50, 100, 101, u128::MAX] {
        let mut f = finalize_for(2, campaign(1000, 100));
        let before = f;
        assert_eq!(f.assign_score(9, score, 101), Err(FairplayError::CampaignExpired));
        assert_eq!(f, before);
    }
}

#[test]
fn assign_score_after_aggregation_is_refused() {
    let mut f = finalize_for(2, campaign(1000, 100));
    f.assign_score(9, 80, 10).unwrap();
    f.scoring_engine(80).unwrap();
    let before = f;
    assert_eq!(f.assign_score(9, 90, 20), Err(FairplayError::ScoreLocked));
    assert_eq!(f, before);
}

#[test]
fn assign_score_after_claim_is_refused() {
    let mut f = finalize_for(2, campaign(1000, 100));
    f.contributor.claimed = true;
    assert_eq!(f.assign_score(9, 90, 20), Err(FairplayError::ScoreLocked));
    assert!(f.contributor.claimed);
}

#[test]
fn stored_score_above_hundred_fails_incorrect_scores() {
    let mut f = finalize_for(2, campaign(1000, 100));
    f.assign_score(9, 101, 10).unwrap();
    let before = f;
    // The stored score is checked, not the argument.
    assert_eq!(f.scoring_engine(50), Err(FairplayError::IncorrectScores));
    assert_eq!(f, before);
}

#[test]
fn zero_total_fails_no_total_score() {
    let mut f = finalize_for(2, campaign(1000, 100));
    f.assign_score(9, 0, 10).unwrap();
    assert_eq!(f.scoring_engine(0), Err(FairplayError::NoTotalScore));
    assert_eq!(f.campaign_config.total_score, 0);
}

#[test]
fn mismatched_campaign_fails() {
    let mut f = finalize_for(2, campaign(1000, 100));
    f.assign_score(9, 50, 10).unwrap();
    f.contributor.campaign_id = 4;
    assert_eq!(f.scoring_engine(50), Err(FairplayError::CampaignMismatch));
}

#[test]
fn total_score_overflow_fails() {
    let mut cfg = campaign(1000, 100);
    cfg.total_score = u128::MAX;
    let mut f = finalize_for(2, cfg);
    f.assign_score(9, 1, 10).unwrap();
    assert_eq!(f.scoring_engine(1), Err(FairplayError::ArithmeticOverflow));
    assert_eq!(f.campaign_config.total_score, u128::MAX);
}

#[test]
fn two_contributors_split_pool_proportionally() {
    let cfg = campaign(1000, 100);
    let mut a = finalize_for(2, cfg);
    assign_score(&mut a, 9, 80, 10).unwrap();
    scoring_engine(&mut a, 80).unwrap();
    assert_eq!(a.campaign_config.total_score, 80);

    let mut b = finalize_for(3, a.campaign_config);
    assign_score(&mut b, 9, 20, 10).unwrap();
    scoring_engine(&mut b, 20).unwrap();
    assert_eq!(b.campaign_config.total_score, 100);
    assert_eq!(b.contributor.reward_share, 200);

    // A's share is finalized once the total is stable; its score is not added again.
    a.campaign_config = b.campaign_config;
    scoring_engine(&mut a, 80).unwrap();
    assert_eq!(a.campaign_config.total_score, 100);
    assert_eq!(a.contributor.reward_share, 800);
    assert_eq!(a.contributor.reward_share + b.contributor.reward_share, 1000);
}

#[test]
fn double_aggregation_counts_score_once() {
    let mut f = finalize_for(2, campaign(1000, 100));
    f.assign_score(9, 40, 10).unwrap();
    f.scoring_engine(40).unwrap();
    assert_eq!(f.campaign_config.total_score, 40);
    f.scoring_engine(40).unwrap();
    f.scoring_engine(40).unwrap();
    assert_eq!(f.campaign_config.total_score, 40);
    assert_eq!(f.contributor.reward_share, 1000);
}

#[test]
fn claim_pays_stored_share_once() {
    let mut c = ContributorState::unscored(addr(2));
    c.reward_share = 800;
    let mut cl = claim_for(c, 1000, 5);
    assert_eq!(claim_reward(&mut cl, 800), Ok(()));
    assert_eq!(cl.vault.amount, 200);
    assert_eq!(cl.user_token_account.amount, 805);
    assert!(cl.contributor.claimed);
    let after_first = cl;
    assert_eq!(cl.claim_reward(800), Err(FairplayError::AlreadyClaimed));
    assert_eq!(cl.claim_reward(0), Err(FairplayError::AlreadyClaimed));
    assert_eq!(cl, after_first);
}

#[test]
fn claim_of_other_amount_fails() {
    let mut c = ContributorState::unscored(addr(2));
    c.reward_share = 800;
    let mut cl = claim_for(c, 1000, 0);
    let before = cl;
    assert_eq!(cl.claim_reward(1000), Err(FairplayError::ClaimMismatch));
    assert_eq!(cl, before);
}

#[test]
fn failed_claim_transfer_leaves_record_unclaimed() {
    let mut c = ContributorState::unscored(addr(2));
    c.reward_share = 800;
    let mut cl = claim_for(c, 799, 0);
    assert_eq!(cl.claim_reward(800), Err(FairplayError::InsufficientFunds));
    assert!(!cl.contributor.claimed);
    assert_eq!(cl.vault.amount, 799);
    let mut cl2 = claim_for(c, 1000, u64::MAX);
    assert_eq!(cl2.claim_reward(800), Err(FairplayError::ArithmeticOverflow));
    assert!(!cl2.contributor.claimed);
}

#[test]
fn claim_conserves_total_balance() {
    let mut c = ContributorState::unscored(addr(2));
    c.reward_share = 123;
    let mut cl = claim_for(c, 500, 77);
    let sum_before = cl.vault.amount + cl.user_token_account.amount;
    cl.claim_reward(123).unwrap();
    assert!(cl.vault.amount < 500);
    assert_eq!(cl.vault.amount + cl.user_token_account.amount, sum_before);
}

#[test]
fn mul_div_exact_near_maximum() {
    let m = u128::MAX;
    assert_eq!(mul_div_floor(m, m, m), Some(m));
    assert_eq!(mul_div_floor(m, 100, 100), Some(m));
    assert_eq!(mul_div_floor(m, 100, 101), Some(m / 101 * 100 + (m % 101) * 100 / 101));
    assert_eq!(mul_div_floor(m, m - 1, m), Some(m - 1));
    assert_eq!(mul_div_floor(m - 1, m, m - 1), Some(m));
    assert_eq!(mul_div_floor(m, 2, 1), None);
    assert_eq!(mul_div_floor(m, m, m - 1), None);
    assert_eq!(mul_div_floor(0, m, 1), Some(0));
    assert_eq!(mul_div_floor(7, 3, 2), Some(10));
}

#[test]
fn reward_share_with_huge_pool_is_exact() {
    let pool = u128::MAX;
    let mut f = finalize_for(2, campaign(pool, 100));
    f.assign_score(9, 100, 10).unwrap();
    f.scoring_engine(100).unwrap();
    assert_eq!(f.contributor.reward_share, u128::MAX);

    let mut g = finalize_for(3, campaign(pool, 100));
    g.campaign_config.total_score = 200;
    g.assign_score(9, 100, 10).unwrap();
    g.scoring_engine(100).unwrap();
    assert_eq!(g.campaign_config.total_score, 300);
    assert_eq!(g.contributor.reward_share, u128::MAX / 3);

    let mut h = finalize_for(4, campaign(pool, 100));
    h.assign_score(9, 50, 10).unwrap();
    assert_eq!(h.scoring_engine(51), Err(FairplayError::ArithmeticOverflow));
}
