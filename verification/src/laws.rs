use vstd::prelude::*;

use crate::errors::{EscrowError, InstructionError};
use crate::instructions::accept_job::accept_job_spec;
use crate::instructions::cancel_and_refund::cancel_and_refund_spec;
use crate::instructions::claim_after_deadline::claim_after_deadline_spec;
use crate::instructions::complete_job::complete_job_spec;
use crate::instructions::fund_escrow::fund_escrow_spec;
use crate::instructions::initialize_escrow::initialize_escrow_spec;
use crate::instructions::release_funds::release_funds_spec;
use crate::state::{can_pay_out, fits_i64, EscrowAccount, Pubkey, Status, SystemTransfer, Wallet};

verus! {

/// The steps of the flow: Pending to Funded, Funded to Accepted, Accepted to
/// Completed, Completed to Released, and Funded or Accepted to Cancelled.
pub open spec fn flow_step(from: Status, to: Status) -> bool {
    ||| from == Status::Pending && to == Status::Funded
    ||| from == Status::Funded && to == Status::Accepted
    ||| from == Status::Accepted && to == Status::Completed
    ||| from == Status::Completed && to == Status::Released
    ||| (from == Status::Funded || from == Status::Accepted) && to == Status::Cancelled
}

/// Whether the funds have left the escrow for good.
pub open spec fn is_settled(status: Status) -> bool {
    status == Status::Released || status == Status::Cancelled
}

/// The escrow account once the System Program has made the transfer that
/// funding asks for.
pub open spec fn after_transfer(escrow: EscrowAccount, transfer: SystemTransfer) -> EscrowAccount {
    EscrowAccount { lamports: (escrow.lamports + transfer.lamports) as u64, ..escrow }
}

/// Every instruction that succeeds on an existing escrow moves its status one
/// step along the flow, and a new escrow starts out pending.
pub proof fn lemma_status_follows_flow(
    escrow: EscrowAccount,
    signer: Pubkey,
    wallet: Wallet,
    now: i64,
    derived: Option<(Seq<u8>, u8)>,
    job_id: u64,
    freelancer: Pubkey,
    amount: u64,
    deadline: i64,
    grace_period: i64,
    review_window: i64,
)
    ensures
        initialize_escrow_spec(escrow, signer, derived, job_id, freelancer, amount, deadline, grace_period, review_window)
            matches Ok(e) ==> e.state.status == Status::Pending,
        fund_escrow_spec(escrow, signer) matches Ok((e, _)) ==> flow_step(escrow.state.status, e.state.status),
        accept_job_spec(escrow, signer, now) matches Ok(e) ==> flow_step(escrow.state.status, e.state.status),
        complete_job_spec(escrow, signer, now) matches Ok(e) ==> flow_step(escrow.state.status, e.state.status),
        release_funds_spec(escrow, signer, wallet, derived) matches Ok((e, _)) ==> flow_step(
            escrow.state.status,
            e.state.status,
        ),
        claim_after_deadline_spec(escrow, wallet, now) matches Ok((e, _)) ==> flow_step(
            escrow.state.status,
            e.state.status,
        ),
        cancel_and_refund_spec(escrow, wallet, now) matches Ok((e, _)) ==> flow_step(
            escrow.state.status,
            e.state.status,
        ),
{
}

/// Once the funds have been released or refunded, every instruction on the
/// escrow is refused: the escrowed amount leaves the escrow at most once.
pub proof fn lemma_settled_escrow_is_final(
    escrow: EscrowAccount,
    signer: Pubkey,
    wallet: Wallet,
    now: i64,
    derived: Option<(Seq<u8>, u8)>,
)
    requires
        is_settled(escrow.state.status),
    ensures
        fund_escrow_spec(escrow, signer) is Err,
        accept_job_spec(escrow, signer, now) is Err,
        complete_job_spec(escrow, signer, now) is Err,
        release_funds_spec(escrow, signer, wallet, derived) is Err,
        claim_after_deadline_spec(escrow, wallet, now) is Err,
        cancel_and_refund_spec(escrow, wallet, now) is Err,
{
}

/// No instruction changes the terms that the client fixed when the escrow was
/// created (the parties, the amount, the deadline, the grace period, the
/// review window and the job id), nor the escrow's address.
pub proof fn lemma_terms_never_change(
    escrow: EscrowAccount,
    signer: Pubkey,
    wallet: Wallet,
    now: i64,
    derived: Option<(Seq<u8>, u8)>,
)
    ensures
        fund_escrow_spec(escrow, signer) matches Ok((e, _)) ==> e.state.same_terms(escrow.state) && e.key
            == escrow.key,
        accept_job_spec(escrow, signer, now) matches Ok(e) ==> e.state.same_terms(escrow.state) && e.key
            == escrow.key,
        complete_job_spec(escrow, signer, now) matches Ok(e) ==> e.state.same_terms(escrow.state) && e.key
            == escrow.key,
        release_funds_spec(escrow, signer, wallet, derived) matches Ok((e, _)) ==> e.state.same_terms(
            escrow.state,
        ) && e.key == escrow.key,
        claim_after_deadline_spec(escrow, wallet, now) matches Ok((e, _)) ==> e.state.same_terms(
            escrow.state,
        ) && e.key == escrow.key,
        cancel_and_refund_spec(escrow, wallet, now) matches Ok((e, _)) ==> e.state.same_terms(
            escrow.state,
        ) && e.key == escrow.key,
{
}

/// Only the parties that the escrow names act on it: the client funds, releases
/// and cancels; the freelancer accepts, completes and claims. Any other signer
/// is refused with `ConstraintHasOne` (for a release, at an escrow that stands
/// at its derived address).
pub proof fn lemma_only_named_parties_act(
    escrow: EscrowAccount,
    signer: Pubkey,
    wallet: Wallet,
    now: i64,
    derived: Option<(Seq<u8>, u8)>,
)
    ensures
        escrow.state.client@ != signer@ ==> fund_escrow_spec(escrow, signer) == Err::<
            (EscrowAccount, SystemTransfer),
            InstructionError,
        >(InstructionError::ConstraintHasOne),
        escrow.state.freelancer@ != signer@ ==> accept_job_spec(escrow, signer, now) == Err::<
            EscrowAccount,
            InstructionError,
        >(InstructionError::ConstraintHasOne),
        escrow.state.freelancer@ != signer@ ==> complete_job_spec(escrow, signer, now) == Err::<
            EscrowAccount,
            InstructionError,
        >(InstructionError::ConstraintHasOne),
        derived matches Some((key, _)) && key == escrow.key@ && escrow.state.client@ != signer@
            ==> release_funds_spec(escrow, signer, wallet, derived) == Err::<(EscrowAccount, Wallet), InstructionError>(
            InstructionError::ConstraintHasOne,
        ),
        escrow.state.freelancer@ != wallet.key@ ==> claim_after_deadline_spec(escrow, wallet, now) == Err::<
            (EscrowAccount, Wallet),
            InstructionError,
        >(InstructionError::ConstraintHasOne),
        escrow.state.client@ != wallet.key@ ==> cancel_and_refund_spec(escrow, wallet, now) == Err::<
            (EscrowAccount, Wallet),
            InstructionError,
        >(InstructionError::ConstraintHasOne),
{
}

/// Paying out moves lamports and creates none: the escrow account loses exactly
/// the escrowed amount, the receiving wallet gains exactly that amount, and
/// their sum is unchanged.
pub proof fn lemma_payouts_conserve_lamports(
    escrow: EscrowAccount,
    signer: Pubkey,
    wallet: Wallet,
    now: i64,
    derived: Option<(Seq<u8>, u8)>,
)
    requires
        can_pay_out(escrow, wallet),
    ensures
        release_funds_spec(escrow, signer, wallet, derived) matches Ok((e, w)) ==> {
            &&& e.lamports == escrow.lamports - escrow.state.amount
            &&& w.lamports == wallet.lamports + escrow.state.amount
            &&& w.key == wallet.key
            &&& e.lamports + w.lamports == escrow.lamports + wallet.lamports
        },
        claim_after_deadline_spec(escrow, wallet, now) matches Ok((e, w)) ==> {
            &&& e.lamports == escrow.lamports - escrow.state.amount
            &&& w.lamports == wallet.lamports + escrow.state.amount
            &&& w.key == wallet.key
            &&& e.lamports + w.lamports == escrow.lamports + wallet.lamports
        },
        cancel_and_refund_spec(escrow, wallet, now) matches Ok((e, w)) ==> {
            &&& e.lamports == escrow.lamports - escrow.state.amount
            &&& w.lamports == wallet.lamports + escrow.state.amount
            &&& w.key == wallet.key
            &&& e.lamports + w.lamports == escrow.lamports + wallet.lamports
        },
{
}

/// The escrow account holds the escrowed amount for as long as the escrow is
/// funded and unsettled: funding (with the transfer it asks for, which moves
/// exactly the recorded amount from the signing client to the escrow) makes it
/// so, accepting and completing keep it so, and every payout settles the escrow.
pub proof fn lemma_escrow_holds_funds(
    escrow: EscrowAccount,
    signer: Pubkey,
    wallet: Wallet,
    now: i64,
    derived: Option<(Seq<u8>, u8)>,
)
    ensures
        fund_escrow_spec(escrow, signer) matches Ok((e, t)) ==> {
            &&& t.from == signer
            &&& t.to == escrow.key
            &&& t.lamports == escrow.state.amount
            &&& escrow.lamports + t.lamports <= u64::MAX ==> after_transfer(e, t).holds_funds()
        },
        escrow.holds_funds() ==> (accept_job_spec(escrow, signer, now) matches Ok(e) ==> e.holds_funds()),
        escrow.holds_funds() ==> (complete_job_spec(escrow, signer, now) matches Ok(e) ==> e.holds_funds()),
        release_funds_spec(escrow, signer, wallet, derived) matches Ok((e, _)) ==> is_settled(e.state.status)
            && e.holds_funds(),
        claim_after_deadline_spec(escrow, wallet, now) matches Ok((e, _)) ==> is_settled(e.state.status)
            && e.holds_funds(),
        cancel_and_refund_spec(escrow, wallet, now) matches Ok((e, _)) ==> is_settled(e.state.status)
            && e.holds_funds(),
{
}

/// The freelancer's recovery path: once a completed job has gone unreleased
/// through the review window and the grace period, the freelancer named in the
/// escrow is paid whatever the client does; before that moment the claim is
/// refused as too early.
pub proof fn lemma_freelancer_can_always_claim(escrow: EscrowAccount, wallet: Wallet, now: i64)
    requires
        escrow.state.status == Status::Completed,
        escrow.state.freelancer@ == wallet.key@,
    ensures
        now >= escrow.state.completed_at + escrow.state.review_window + escrow.state.grace_period
            ==> claim_after_deadline_spec(escrow, wallet, now) is Ok,
        now < escrow.state.completed_at + escrow.state.review_window + escrow.state.grace_period
            ==> claim_after_deadline_spec(escrow, wallet, now) == Err::<
            (EscrowAccount, Wallet),
            InstructionError,
        >(InstructionError::Escrow(EscrowError::TooEarlyToClaim)),
{
}

/// The client's recovery path: once the deadline has come, the client named in
/// the escrow takes back the funds of an escrow that is funded or accepted;
/// before the deadline the refund is refused as too early, and a job that has
/// been delivered can never be cancelled.
pub proof fn lemma_client_can_recover_undelivered(escrow: EscrowAccount, wallet: Wallet, now: i64)
    requires
        escrow.state.client@ == wallet.key@,
    ensures
        (escrow.state.status == Status::Funded || escrow.state.status == Status::Accepted) ==> {
            &&& now >= escrow.state.deadline ==> cancel_and_refund_spec(escrow, wallet, now) is Ok
            &&& now < escrow.state.deadline ==> cancel_and_refund_spec(escrow, wallet, now) == Err::<
                (EscrowAccount, Wallet),
                InstructionError,
            >(InstructionError::Escrow(EscrowError::TooEarlyToCancel))
        },
        escrow.state.status == Status::Completed ==> cancel_and_refund_spec(escrow, wallet, now) == Err::<
            (EscrowAccount, Wallet),
            InstructionError,
        >(InstructionError::ConstraintRaw),
{
}

/// The whole flow with the client's approval: an escrow created at its derived
/// address, funded, accepted before the deadline, completed within the grace
/// period and released pays the freelancer exactly the escrowed amount and
/// leaves the escrow account with the balance it had before it was funded.
pub proof fn lemma_release_flow(
    account: EscrowAccount,
    client: Pubkey,
    freelancer: Wallet,
    bump: u8,
    job_id: u64,
    amount: u64,
    deadline: i64,
    grace_period: i64,
    review_window: i64,
    accepted_at: i64,
    completed_at: i64,
)
    requires
        account.lamports + amount <= u64::MAX,
        freelancer.lamports + amount <= u64::MAX,
        accepted_at < deadline,
        fits_i64(deadline + grace_period),
        completed_at <= deadline + grace_period,
    ensures
        ({
            let derived = Some((account.key@, bump));
            let created = initialize_escrow_spec(
                account,
                client,
                derived,
                job_id,
                freelancer.key,
                amount,
                deadline,
                grace_period,
                review_window,
            );
            &&& created is Ok
            &&& fund_escrow_spec(created->Ok_0, client) is Ok
            &&& ({
                let (pending_to_funded, transfer) = fund_escrow_spec(created->Ok_0, client)->Ok_0;
                let funded = after_transfer(pending_to_funded, transfer);
                &&& accept_job_spec(funded, freelancer.key, accepted_at) is Ok
                &&& complete_job_spec(accept_job_spec(funded, freelancer.key, accepted_at)->Ok_0, freelancer.key, completed_at) is Ok
                &&& ({
                    let completed = complete_job_spec(accept_job_spec(funded, freelancer.key, accepted_at)->Ok_0, freelancer.key, completed_at)->Ok_0;
                    &&& completed.state.completed_at == completed_at
                    &&& release_funds_spec(completed, client, freelancer, derived) is Ok
                    &&& ({
                        let (released, paid) = release_funds_spec(completed, client, freelancer, derived)->Ok_0;
                        &&& released.state.status == Status::Released
                        &&& released.lamports == account.lamports
                        &&& paid.lamports == freelancer.lamports + amount
                    })
                })
            })
        }),
{
}

/// The whole flow when the client stays silent: an escrow created, funded,
/// accepted and completed is paid to the freelancer who claims it once the
/// review window and the grace period have passed since completion.
pub proof fn lemma_claim_flow(
    account: EscrowAccount,
    client: Pubkey,
    freelancer: Wallet,
    bump: u8,
    job_id: u64,
    amount: u64,
    deadline: i64,
    grace_period: i64,
    review_window: i64,
    accepted_at: i64,
    completed_at: i64,
    claimed_at: i64,
)
    requires
        account.lamports + amount <= u64::MAX,
        freelancer.lamports + amount <= u64::MAX,
        accepted_at < deadline,
        fits_i64(deadline + grace_period),
        completed_at <= deadline + grace_period,
        claimed_at >= completed_at + review_window + grace_period,
    ensures
        ({
            let created = initialize_escrow_spec(
                account,
                client,
                Some((account.key@, bump)),
                job_id,
                freelancer.key,
                amount,
                deadline,
                grace_period,
                review_window,
            );
            let (pending_to_funded, transfer) = fund_escrow_spec(created->Ok_0, client)->Ok_0;
            let funded = after_transfer(pending_to_funded, transfer);
            let accepted = accept_job_spec(funded, freelancer.key, accepted_at);
            let completed = complete_job_spec(accepted->Ok_0, freelancer.key, completed_at);
            let claimed = claim_after_deadline_spec(completed->Ok_0, freelancer, claimed_at);
            &&& created is Ok
            &&& fund_escrow_spec(created->Ok_0, client) is Ok
            &&& accepted is Ok
            &&& completed is Ok
            &&& claimed is Ok
            &&& claimed->Ok_0.0.state.status == Status::Released
            &&& claimed->Ok_0.0.lamports == account.lamports
            &&& claimed->Ok_0.1.lamports == freelancer.lamports + amount
        }),
{
}

} // verus!
