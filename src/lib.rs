//! A sponsor-funded campaign that splits a reward pool among contributors in
//! proportion to their scores, and pays each contributor exactly once.
use vstd::prelude::*;

pub mod error;
pub mod fairplay;
pub mod instructions;
pub mod laws;
pub mod math;
pub mod state;

pub use error::FairplayError;
pub use instructions::claim::Claim;
pub use instructions::deposit::Deposit;
pub use instructions::finalize::Finalize;
pub use instructions::init_escrow::InitializeEscrow;
pub use instructions::initialize::Initialize;
pub use state::{Address, CampaignConfig, ContributorState, Escrow, TokenAccount};

verus! {

} // verus!
