use vstd::prelude::*;

use crate::errors::InstructionError;
use crate::pda::{derive_escrow_address, derived_view, escrow_address_spec, seeds_check, verify_escrow_address};
use crate::state::{can_pay_out, pay_out, settles, Context, EscrowAccount, Pubkey, Status, Wallet};

verus! {

/// The accounts of `release_funds`: the client who signs, the escrow, and the
/// freelancer's wallet that receives the funds.
pub struct ReleaseFunds {
    pub client: Pubkey,
    pub escrow: EscrowAccount,
    pub freelancer: Wallet,
}

/// Whether the escrow passes the constraints on its parties and status (the
/// address check aside).
pub open spec fn release_funds_admits(escrow: EscrowAccount, client: Pubkey, freelancer: Wallet) -> bool {
    &&& escrow.state.client@ == client@
    &&& escrow.state.freelancer@ == freelancer.key@
    &&& escrow.state.status == Status::Completed
}

/// The client named in the escrow approves a completed job: the escrow account,
/// which must stand at the address derived from the client and the job id
/// (`derived`), pays the escrowed amount to the freelancer named in it.
pub open spec fn release_funds_spec(
    escrow: EscrowAccount,
    client: Pubkey,
    freelancer: Wallet,
    derived: Option<(Seq<u8>, u8)>,
) -> Result<(EscrowAccount, Wallet), InstructionError> {
    match seeds_check(escrow.key@, derived) {
        Err(e) => Err(e),
        Ok(_) => if escrow.state.client@ != client@ {
            Err(InstructionError::ConstraintHasOne)
        } else if escrow.state.freelancer@ != freelancer.key@ {
            Err(InstructionError::ConstraintHasOne)
        } else if escrow.state.status != Status::Completed {
            Err(InstructionError::ConstraintRaw)
        } else {
            Ok(pay_out(escrow, freelancer, Status::Released))
        },
    }
}

/// Releases the funds to the freelancer, given the address derived for the
/// escrow.
pub fn apply_release_funds(ctx: &mut Context<ReleaseFunds>, derived: &Option<(Pubkey, u8)>) -> (r: Result<(), InstructionError>)
    requires
        release_funds_admits(old(ctx).accounts.escrow, old(ctx).accounts.client, old(ctx).accounts.freelancer)
            && seeds_check(old(ctx).accounts.escrow.key@, derived_view(*derived)) is Ok
            ==> can_pay_out(old(ctx).accounts.escrow, old(ctx).accounts.freelancer),
    ensures
        final(ctx).program_id == old(ctx).program_id,
        final(ctx).accounts.client == old(ctx).accounts.client,
        settles(
            r,
            (old(ctx).accounts.escrow, old(ctx).accounts.freelancer),
            (final(ctx).accounts.escrow, final(ctx).accounts.freelancer),
            release_funds_spec(
                old(ctx).accounts.escrow,
                old(ctx).accounts.client,
                old(ctx).accounts.freelancer,
                derived_view(*derived),
            ),
        ),
{
    match verify_escrow_address(&ctx.accounts.escrow.key, derived) {
        Err(e) => Err(e),
        Ok(_) => {
            if !ctx.accounts.escrow.state.client.same_key(&ctx.accounts.client) {
                return Err(InstructionError::ConstraintHasOne);
            }
            if !ctx.accounts.escrow.state.freelancer.same_key(&ctx.accounts.freelancer.key) {
                return Err(InstructionError::ConstraintHasOne);
            }
            if ctx.accounts.escrow.state.status != Status::Completed {
                return Err(InstructionError::ConstraintRaw);
            }
            let amount = ctx.accounts.escrow.state.amount;
            ctx.accounts.escrow.lamports = ctx.accounts.escrow.lamports - amount;
            ctx.accounts.freelancer.lamports = ctx.accounts.freelancer.lamports + amount;
            ctx.accounts.escrow.state.status = Status::Released;
            Ok(())
        },
    }
}

/// Releases the funds to the freelancer.
pub fn handle_release_funds(ctx: &mut Context<ReleaseFunds>) -> (r: Result<(), InstructionError>)
    requires
        release_funds_admits(old(ctx).accounts.escrow, old(ctx).accounts.client, old(ctx).accounts.freelancer)
            ==> can_pay_out(old(ctx).accounts.escrow, old(ctx).accounts.freelancer),
    ensures
        final(ctx).program_id == old(ctx).program_id,
        final(ctx).accounts.client == old(ctx).accounts.client,
        settles(
            r,
            (old(ctx).accounts.escrow, old(ctx).accounts.freelancer),
            (final(ctx).accounts.escrow, final(ctx).accounts.freelancer),
            release_funds_spec(
                old(ctx).accounts.escrow,
                old(ctx).accounts.client,
                old(ctx).accounts.freelancer,
                escrow_address_spec(
                    old(ctx).accounts.client@,
                    old(ctx).accounts.escrow.state.job_id,
                    old(ctx).program_id@,
                ),
            ),
        ),
{
    let derived = derive_escrow_address(&ctx.accounts.client, ctx.accounts.escrow.state.job_id, &ctx.program_id);
    apply_release_funds(ctx, &derived)
}

} // verus!
