use vstd::prelude::*;

use crate::errors::InstructionError;
use crate::pda::{derive_escrow_address, derived_view, escrow_address_spec, seeds_check, verify_escrow_address};
use crate::state::{settles, Context, EscrowAccount, EscrowState, Pubkey, Status};

verus! {

/// The accounts of `initialize_escrow`: the client who signs and pays, and the
/// escrow account that is created for the job.
pub struct InitializeEscrow {
    pub client: Pubkey,
    pub escrow: EscrowAccount,
}

/// The terms of a new escrow: pending, not yet completed, with the signer as
/// its client.
pub open spec fn new_escrow_state(
    client: Pubkey,
    job_id: u64,
    freelancer: Pubkey,
    amount: u64,
    deadline: i64,
    grace_period: i64,
    review_window: i64,
) -> EscrowState {
    EscrowState {
        client,
        freelancer,
        amount,
        status: Status::Pending,
        deadline,
        grace_period,
        review_window,
        completed_at: 0,
        job_id,
    }
}

/// The escrow account must stand at the address derived from the client and
/// the job id (`derived`); it then holds the new terms.
pub open spec fn initialize_escrow_spec(
    escrow: EscrowAccount,
    client: Pubkey,
    derived: Option<(Seq<u8>, u8)>,
    job_id: u64,
    freelancer: Pubkey,
    amount: u64,
    deadline: i64,
    grace_period: i64,
    review_window: i64,
) -> Result<EscrowAccount, InstructionError> {
    match seeds_check(escrow.key@, derived) {
        Err(e) => Err(e),
        Ok(_) => Ok(
            escrow.with_state(
                new_escrow_state(client, job_id, freelancer, amount, deadline, grace_period, review_window),
            ),
        ),
    }
}

/// Creates the escrow's terms, given the address derived for it.
pub fn apply_initialize_escrow(
    ctx: &mut Context<InitializeEscrow>,
    derived: &Option<(Pubkey, u8)>,
    job_id: u64,
    freelancer: Pubkey,
    amount: u64,
    deadline: i64,
    grace_period: i64,
    review_window: i64,
) -> (r: Result<(), InstructionError>)
    ensures
        final(ctx).program_id == old(ctx).program_id,
        final(ctx).accounts.client == old(ctx).accounts.client,
        settles(
            r,
            old(ctx).accounts.escrow,
            final(ctx).accounts.escrow,
            initialize_escrow_spec(
                old(ctx).accounts.escrow,
                old(ctx).accounts.client,
                derived_view(*derived),
                job_id,
                freelancer,
                amount,
                deadline,
                grace_period,
                review_window,
            ),
        ),
{
    match verify_escrow_address(&ctx.accounts.escrow.key, derived) {
        Err(e) => Err(e),
        Ok(_) => {
            ctx.accounts.escrow.state = EscrowState {
                client: ctx.accounts.client,
                freelancer,
                amount,
                status: Status::Pending,
                deadline,
                grace_period,
                review_window,
                completed_at: 0,
                job_id,
            };
            Ok(())
        },
    }
}

/// Creates the escrow of the signing client for `job_id`.
pub fn handle_initialize_escrow(
    ctx: &mut Context<InitializeEscrow>,
    job_id: u64,
    freelancer: Pubkey,
    amount: u64,
    deadline: i64,
    grace_period: i64,
    review_window: i64,
) -> (r: Result<(), InstructionError>)
    ensures
        final(ctx).program_id == old(ctx).program_id,
        final(ctx).accounts.client == old(ctx).accounts.client,
        settles(
            r,
            old(ctx).accounts.escrow,
            final(ctx).accounts.escrow,
            initialize_escrow_spec(
                old(ctx).accounts.escrow,
                old(ctx).accounts.client,
                escrow_address_spec(old(ctx).accounts.client@, job_id, old(ctx).program_id@),
                job_id,
                freelancer,
                amount,
                deadline,
                grace_period,
                review_window,
            ),
        ),
{
    let derived = derive_escrow_address(&ctx.accounts.client, job_id, &ctx.program_id);
    apply_initialize_escrow(ctx, &derived, job_id, freelancer, amount, deadline, grace_period, review_window)
}

} // verus!
