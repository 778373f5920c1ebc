use vstd::prelude::*;

use crate::errors::{EscrowError, InstructionError};
use crate::state::{can_pay_out, fits_i64, pay_out, settles, Context, EscrowAccount, Status, Wallet};

verus! {

/// The accounts of `claim_after_deadline`: the freelancer who signs, and the
/// escrow.
pub struct ClaimAfterDeadline {
    pub freelancer: Wallet,
    pub escrow: EscrowAccount,
}

/// Whether the escrow passes the account constraints of the claim, which stand
/// before its time gate.
pub open spec fn claim_after_deadline_admits(escrow: EscrowAccount, freelancer: Wallet) -> bool {
    escrow.state.freelancer@ == freelancer.key@ && escrow.state.status == Status::Completed
}

/// The moment from which the freelancer may claim: the completion time plus
/// the review window plus the grace period.
pub open spec fn claimable_at(escrow: EscrowAccount) -> int {
    escrow.state.completed_at + escrow.state.review_window + escrow.state.grace_period
}

/// The freelancer named in the escrow takes the escrowed amount of a completed
/// escrow that the client left unreleased through the review window and the
/// grace period.
pub open spec fn claim_after_deadline_spec(escrow: EscrowAccount, freelancer: Wallet, now: i64) -> Result<(EscrowAccount, Wallet), InstructionError> {
    if escrow.state.freelancer@ != freelancer.key@ {
        Err(InstructionError::ConstraintHasOne)
    } else if escrow.state.status != Status::Completed {
        Err(InstructionError::ConstraintRaw)
    } else if now < claimable_at(escrow) {
        Err(InstructionError::Escrow(EscrowError::TooEarlyToClaim))
    } else {
        Ok(pay_out(escrow, freelancer, Status::Released))
    }
}

/// Pays the freelancer at time `now`.
pub fn handle_claim_after_deadline(ctx: &mut Context<ClaimAfterDeadline>, now: i64) -> (r: Result<(), InstructionError>)
    requires
        claim_after_deadline_admits(old(ctx).accounts.escrow, old(ctx).accounts.freelancer) ==> {
            &&& fits_i64(
                old(ctx).accounts.escrow.state.completed_at + old(ctx).accounts.escrow.state.review_window,
            )
            &&& fits_i64(claimable_at(old(ctx).accounts.escrow))
            &&& now >= claimable_at(old(ctx).accounts.escrow) ==> can_pay_out(
                old(ctx).accounts.escrow,
                old(ctx).accounts.freelancer,
            )
        },
    ensures
        final(ctx).program_id == old(ctx).program_id,
        settles(
            r,
            (old(ctx).accounts.escrow, old(ctx).accounts.freelancer),
            (final(ctx).accounts.escrow, final(ctx).accounts.freelancer),
            claim_after_deadline_spec(old(ctx).accounts.escrow, old(ctx).accounts.freelancer, now),
        ),
{
    if !ctx.accounts.escrow.state.freelancer.same_key(&ctx.accounts.freelancer.key) {
        return Err(InstructionError::ConstraintHasOne);
    }
    if ctx.accounts.escrow.state.status != Status::Completed {
        return Err(InstructionError::ConstraintRaw);
    }
    let escrow = &ctx.accounts.escrow;
    let claimable = escrow.state.completed_at + escrow.state.review_window + escrow.state.grace_period;
    if now < claimable {
        return Err(InstructionError::Escrow(EscrowError::TooEarlyToClaim));
    }
    let amount = ctx.accounts.escrow.state.amount;
    ctx.accounts.escrow.lamports = ctx.accounts.escrow.lamports - amount;
    ctx.accounts.freelancer.lamports = ctx.accounts.freelancer.lamports + amount;
    ctx.accounts.escrow.state.status = Status::Released;
    Ok(())
}

} // verus!
