pub mod claim;
pub mod deposit;
pub mod finalize;
pub mod init_escrow;
pub mod initialize;
