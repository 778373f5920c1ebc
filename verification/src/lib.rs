//! A two-party escrow between a client and a freelancer: the client locks the
//! job's payment in an escrow account, the freelancer accepts and delivers, and
//! the funds go to the freelancer on the client's approval or, if the client
//! stays silent, after a review window; the client takes them back if nothing
//! was delivered by the deadline.
pub mod errors;
pub mod instruction_laws;
pub mod instructions;
pub mod laws;
pub mod pda;
pub mod state;

pub use errors::{EscrowError, InstructionError};
pub use instructions::{
    AcceptJob, CancelAndRefund, ClaimAfterDeadline, CompleteJob, FundEscrow, InitializeEscrow, ReleaseFunds,
};
pub use state::{Context, EscrowAccount, EscrowState, Pubkey, Status, SystemTransfer, Wallet};

use vstd::prelude::*;

use instructions::accept_job::{accept_job_spec, handle_accept_job};
use instructions::cancel_and_refund::{cancel_and_refund_admits, cancel_and_refund_spec, handle_cancel_and_refund};
use instructions::claim_after_deadline::{
    claim_after_deadline_admits, claim_after_deadline_spec, claimable_at, handle_claim_after_deadline,
};
use instructions::complete_job::{complete_job_admits, complete_job_spec, handle_complete_job};
use instructions::fund_escrow::{fund_escrow_spec, handle_fund_escrow};
use instructions::initialize_escrow::{handle_initialize_escrow, initialize_escrow_spec};
use instructions::release_funds::{handle_release_funds, release_funds_admits, release_funds_spec};
use pda::escrow_address_spec;
use state::{can_pay_out, fits_i64, settles};

verus! {

/// The client creates the escrow of `job_id` with its terms.
pub fn initialize_escrow(
    ctx: &mut Context<InitializeEscrow>,
    job_id: u64,
    freelancer: Pubkey,
    amount: u64,
    deadline: i64,
    grace_period: i64,
    review_window: i64,
) -> (r: Result<(), InstructionError>)
    ensures
        final(ctx).program_id == old(ctx).program_id,
        final(ctx).accounts.client == old(ctx).accounts.client,
        settles(
            r,
            old(ctx).accounts.escrow,
            final(ctx).accounts.escrow,
            initialize_escrow_spec(
                old(ctx).accounts.escrow,
                old(ctx).accounts.client,
                escrow_address_spec(old(ctx).accounts.client@, job_id, old(ctx).program_id@),
                job_id,
                freelancer,
                amount,
                deadline,
                grace_period,
                review_window,
            ),
        ),
{
    handle_initialize_escrow(ctx, job_id, freelancer, amount, deadline, grace_period, review_window)
}

/// The client funds the escrow; returns the transfer that the System Program
/// is to make from the client to the escrow.
pub fn fund_escrow(ctx: &mut Context<FundEscrow>) -> (r: Result<SystemTransfer, InstructionError>)
    ensures
        final(ctx).program_id == old(ctx).program_id,
        final(ctx).accounts.client == old(ctx).accounts.client,
        match fund_escrow_spec(old(ctx).accounts.escrow, old(ctx).accounts.client) {
            Ok((escrow, transfer)) => r == Ok::<SystemTransfer, InstructionError>(transfer)
                && final(ctx).accounts.escrow == escrow,
            Err(e) => r == Err::<SystemTransfer, InstructionError>(e) && final(ctx).accounts.escrow
                == old(ctx).accounts.escrow,
        },
{
    handle_fund_escrow(ctx)
}

/// The freelancer accepts the job at time `now`.
pub fn accept_job(ctx: &mut Context<AcceptJob>, now: i64) -> (r: Result<(), InstructionError>)
    ensures
        final(ctx).program_id == old(ctx).program_id,
        final(ctx).accounts.freelancer == old(ctx).accounts.freelancer,
        settles(
            r,
            old(ctx).accounts.escrow,
            final(ctx).accounts.escrow,
            accept_job_spec(old(ctx).accounts.escrow, old(ctx).accounts.freelancer, now),
        ),
{
    handle_accept_job(ctx, now)
}

/// The freelancer marks the job delivered at time `now`.
pub fn complete_job(ctx: &mut Context<CompleteJob>, now: i64) -> (r: Result<(), InstructionError>)
    requires
        complete_job_admits(old(ctx).accounts.escrow, old(ctx).accounts.freelancer) ==> fits_i64(
            old(ctx).accounts.escrow.state.deadline + old(ctx).accounts.escrow.state.grace_period,
        ),
    ensures
        final(ctx).program_id == old(ctx).program_id,
        final(ctx).accounts.freelancer == old(ctx).accounts.freelancer,
        settles(
            r,
            old(ctx).accounts.escrow,
            final(ctx).accounts.escrow,
            complete_job_spec(old(ctx).accounts.escrow, old(ctx).accounts.freelancer, now),
        ),
{
    handle_complete_job(ctx, now)
}

/// The client approves the delivery and the funds go to the freelancer.
pub fn release_funds(ctx: &mut Context<ReleaseFunds>) -> (r: Result<(), InstructionError>)
    requires
        release_funds_admits(old(ctx).accounts.escrow, old(ctx).accounts.client, old(ctx).accounts.freelancer)
            ==> can_pay_out(old(ctx).accounts.escrow, old(ctx).accounts.freelancer),
    ensures
        final(ctx).program_id == old(ctx).program_id,
        final(ctx).accounts.client == old(ctx).accounts.client,
        settles(
            r,
            (old(ctx).accounts.escrow, old(ctx).accounts.freelancer),
            (final(ctx).accounts.escrow, final(ctx).accounts.freelancer),
            release_funds_spec(
                old(ctx).accounts.escrow,
                old(ctx).accounts.client,
                old(ctx).accounts.freelancer,
                escrow_address_spec(
                    old(ctx).accounts.client@,
                    old(ctx).accounts.escrow.state.job_id,
                    old(ctx).program_id@,
                ),
            ),
        ),
{
    handle_release_funds(ctx)
}

/// The freelancer takes the funds at time `now` after the client stayed silent.
pub fn claim_after_deadline(ctx: &mut Context<ClaimAfterDeadline>, now: i64) -> (r: Result<(), InstructionError>)
    requires
        claim_after_deadline_admits(old(ctx).accounts.escrow, old(ctx).accounts.freelancer) ==> {
            &&& fits_i64(
                old(ctx).accounts.escrow.state.completed_at + old(ctx).accounts.escrow.state.review_window,
            )
            &&& fits_i64(claimable_at(old(ctx).accounts.escrow))
            &&& now >= claimable_at(old(ctx).accounts.escrow) ==> can_pay_out(
                old(ctx).accounts.escrow,
                old(ctx).accounts.freelancer,
            )
        },
    ensures
        final(ctx).program_id == old(ctx).program_id,
        settles(
            r,
            (old(ctx).accounts.escrow, old(ctx).accounts.freelancer),
            (final(ctx).accounts.escrow, final(ctx).accounts.freelancer),
            claim_after_deadline_spec(old(ctx).accounts.escrow, old(ctx).accounts.freelancer, now),
        ),
{
    handle_claim_after_deadline(ctx, now)
}

/// The client cancels at time `now` and takes the funds back.
pub fn cancel_and_refund(ctx: &mut Context<CancelAndRefund>, now: i64) -> (r: Result<(), InstructionError>)
    requires
        cancel_and_refund_admits(old(ctx).accounts.escrow, old(ctx).accounts.client, now) ==> can_pay_out(
            old(ctx).accounts.escrow,
            old(ctx).accounts.client,
        ),
    ensures
        final(ctx).program_id == old(ctx).program_id,
        settles(
            r,
            (old(ctx).accounts.escrow, old(ctx).accounts.client),
            (final(ctx).accounts.escrow, final(ctx).accounts.client),
            cancel_and_refund_spec(old(ctx).accounts.escrow, old(ctx).accounts.client, now),
        ),
{
    handle_cancel_and_refund(ctx, now)
}

} // verus!
