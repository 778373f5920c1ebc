use vstd::prelude::*;

use crate::errors::{EscrowError, InstructionError};
use crate::state::{can_pay_out, pay_out, settles, Context, EscrowAccount, Status, Wallet};

verus! {

/// The accounts of `cancel_and_refund`: the client who signs, and the escrow.
pub struct CancelAndRefund {
    pub client: Wallet,
    pub escrow: EscrowAccount,
}

/// Whether the refund passes every check, so that the escrowed amount moves.
pub open spec fn cancel_and_refund_admits(escrow: EscrowAccount, client: Wallet, now: i64) -> bool {
    &&& escrow.state.client@ == client.key@
    &&& (escrow.state.status == Status::Funded || escrow.state.status == Status::Accepted)
    &&& now >= escrow.state.deadline
}

/// The client named in the escrow takes the escrowed amount back from a funded
/// or accepted (never a completed) escrow once the deadline has come.
pub open spec fn cancel_and_refund_spec(escrow: EscrowAccount, client: Wallet, now: i64) -> Result<(EscrowAccount, Wallet), InstructionError> {
    if escrow.state.client@ != client.key@ {
        Err(InstructionError::ConstraintHasOne)
    } else if !(escrow.state.status == Status::Funded || escrow.state.status == Status::Accepted) {
        Err(InstructionError::ConstraintRaw)
    } else if now < escrow.state.deadline {
        Err(InstructionError::Escrow(EscrowError::TooEarlyToCancel))
    } else {
        Ok(pay_out(escrow, client, Status::Cancelled))
    }
}

/// Cancels the escrow at time `now` and refunds the client.
pub fn handle_cancel_and_refund(ctx: &mut Context<CancelAndRefund>, now: i64) -> (r: Result<(), InstructionError>)
    requires
        cancel_and_refund_admits(old(ctx).accounts.escrow, old(ctx).accounts.client, now) ==> can_pay_out(
            old(ctx).accounts.escrow,
            old(ctx).accounts.client,
        ),
    ensures
        final(ctx).program_id == old(ctx).program_id,
        settles(
            r,
            (old(ctx).accounts.escrow, old(ctx).accounts.client),
            (final(ctx).accounts.escrow, final(ctx).accounts.client),
            cancel_and_refund_spec(old(ctx).accounts.escrow, old(ctx).accounts.client, now),
        ),
{
    if !ctx.accounts.escrow.state.client.same_key(&ctx.accounts.client.key) {
        return Err(InstructionError::ConstraintHasOne);
    }
    if !(ctx.accounts.escrow.state.status == Status::Funded || ctx.accounts.escrow.state.status
        == Status::Accepted) {
        return Err(InstructionError::ConstraintRaw);
    }
    if now < ctx.accounts.escrow.state.deadline {
        return Err(InstructionError::Escrow(EscrowError::TooEarlyToCancel));
    }
    let amount = ctx.accounts.escrow.state.amount;
    ctx.accounts.escrow.lamports = ctx.accounts.escrow.lamports - amount;
    ctx.accounts.client.lamports = ctx.accounts.client.lamports + amount;
    ctx.accounts.escrow.state.status = Status::Cancelled;
    Ok(())
}

} // verus!
