use vstd::prelude::*;
use crate::state::{Address, Escrow};

verus! {

/// The records that creating an escrow descriptor on its own writes.
#[derive(Debug, Clone, Copy, PartialEq, Eq)]
pub struct InitializeEscrow {
    pub sponsor: Address,
    pub user: Address,
    pub escrow: Escrow,
}

impl InitializeEscrow {
    /// Sets the escrow descriptor: its seed, the sponsor as owner, and the
    /// campaign it serves.
    pub fn initialize_escrow(&mut self, seed: u64, campaign_id: u8)
        ensures
            final(self).escrow == (Escrow { seed, owner: old(self).sponsor, campaign_id }),
            final(self).sponsor == old(self).sponsor,
            final(self).user == old(self).user,
    {
        self.escrow = Escrow { seed, owner: self.sponsor, campaign_id };
    }
}

} // verus!
