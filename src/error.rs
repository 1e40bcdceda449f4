use vstd::prelude::*;

verus! {

/// Every way an operation on a campaign can fail. Each failure aborts the
/// whole operation and leaves every record as it was.
#[derive(Debug, Clone, Copy, PartialEq, Eq, Structural)]
pub enum FairplayError {
    /// The contributor's stored score is above 100.
    IncorrectScores,
    /// The campaign's total score is zero when a share is divided out.
    NoTotalScore,
    /// The campaign's end time is not after the time of creation.
    InvalidEndTime,
    /// The contributor has already been paid.
    AlreadyClaimed,
    /// A score was submitted after the campaign's end time.
    CampaignExpired,
    /// The paying account holds less than the amount to move.
    InsufficientFunds,
    /// The contributor record has entered the campaign total or has been paid,
    /// so its score can no longer be rewritten.
    ScoreLocked,
    /// The contributor record belongs to another campaign.
    CampaignMismatch,
    /// The amount asked for differs from the stored reward share.
    ClaimMismatch,
    /// A result does not fit its integer type.
    ArithmeticOverflow,
}

/// `after` is what `res` left of `before`, given the model's answer `model`:
/// the new records on success, the old ones untouched on failure.
pub open spec fn applied<T>(model: Result<T, FairplayError>, res: Result<(), FairplayError>, before: T, after: T) -> bool {
    match model {
        Ok(n) => res is Ok && after == n,
        Err(e) => res == Err::<(), FairplayError>(e) && after == before,
    }
}

} // verus!
