pub mod accept_job;
pub mod cancel_and_refund;
pub mod claim_after_deadline;
pub mod complete_job;
pub mod fund_escrow;
pub mod initialize_escrow;
pub mod release_funds;

pub use accept_job::{accept_job_spec, handle_accept_job, AcceptJob};
pub use cancel_and_refund::{cancel_and_refund_spec, handle_cancel_and_refund, CancelAndRefund};
pub use claim_after_deadline::{claim_after_deadline_spec, handle_claim_after_deadline, ClaimAfterDeadline};
pub use complete_job::{complete_job_spec, handle_complete_job, CompleteJob};
pub use fund_escrow::{fund_escrow_spec, handle_fund_escrow, FundEscrow};
pub use initialize_escrow::{
    apply_initialize_escrow, handle_initialize_escrow, initialize_escrow_spec, new_escrow_state, InitializeEscrow,
};
pub use release_funds::{apply_release_funds, handle_release_funds, release_funds_spec, ReleaseFunds};
