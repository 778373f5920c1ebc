use vstd::prelude::*;

use crate::errors::InstructionError;
use crate::state::{Context, EscrowAccount, Pubkey, Status, SystemTransfer};

verus! {

/// The accounts of `fund_escrow`: the client who signs, and the escrow.
pub struct FundEscrow {
    pub client: Pubkey,
    pub escrow: EscrowAccount,
}

/// The client named in the escrow funds a pending escrow: the escrow becomes
/// funded, and the System Program is asked to move the escrowed amount, as
/// the escrow records it, from the client's wallet to the escrow account.
pub open spec fn fund_escrow_spec(escrow: EscrowAccount, client: Pubkey) -> Result<(EscrowAccount, SystemTransfer), InstructionError> {
    if escrow.state.client@ != client@ {
        Err(InstructionError::ConstraintHasOne)
    } else if escrow.state.status != Status::Pending {
        Err(InstructionError::ConstraintRaw)
    } else {
        Ok(
            (
                escrow.with_state(escrow.state.with_status(Status::Funded)),
                SystemTransfer { from: client, to: escrow.key, lamports: escrow.state.amount },
            ),
        )
    }
}

/// Funds the escrow; returns the transfer that the System Program is to make.
/// The instruction succeeds only where that transfer succeeds.
pub fn handle_fund_escrow(ctx: &mut Context<FundEscrow>) -> (r: Result<SystemTransfer, InstructionError>)
    ensures
        final(ctx).program_id == old(ctx).program_id,
        final(ctx).accounts.client == old(ctx).accounts.client,
        match fund_escrow_spec(old(ctx).accounts.escrow, old(ctx).accounts.client) {
            Ok((escrow, transfer)) => r == Ok::<SystemTransfer, InstructionError>(transfer)
                && final(ctx).accounts.escrow == escrow,
            Err(e) => r == Err::<SystemTransfer, InstructionError>(e) && final(ctx).accounts.escrow
                == old(ctx).accounts.escrow,
        },
{
    if !ctx.accounts.escrow.state.client.same_key(&ctx.accounts.client) {
        return Err(InstructionError::ConstraintHasOne);
    }
    if ctx.accounts.escrow.state.status != Status::Pending {
        return Err(InstructionError::ConstraintRaw);
    }
    let transfer = SystemTransfer {
        from: ctx.accounts.client,
        to: ctx.accounts.escrow.key,
        lamports: ctx.accounts.escrow.state.amount,
    };
    ctx.accounts.escrow.state.status = Status::Funded;
    Ok(transfer)
}

} // verus!
