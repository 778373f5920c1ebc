use vstd::prelude::*;
use vstd::bytes::{lemma_auto_spec_u64_to_from_le_bytes, spec_u64_from_le_bytes, spec_u64_to_le_bytes};

use crate::errors::{EscrowError, InstructionError};
use crate::instructions::accept_job::accept_job_spec;
use crate::instructions::cancel_and_refund::{cancel_and_refund_admits, cancel_and_refund_spec};
use crate::instructions::claim_after_deadline::{claim_after_deadline_admits, claim_after_deadline_spec, claimable_at};
use crate::instructions::complete_job::{complete_job_admits, complete_job_spec};
use crate::instructions::fund_escrow::fund_escrow_spec;
use crate::instructions::initialize_escrow::initialize_escrow_spec;
use crate::instructions::release_funds::{release_funds_admits, release_funds_spec};
use crate::pda::{derived_view, escrow_address_spec, escrow_seeds_spec, program_address, seeds_check};
use crate::state::{can_pay_out, fits_i64, settles, EscrowAccount, EscrowState, Pubkey, Status, SystemTransfer, Wallet};

verus! {

/// An instruction's contract: where it succeeds, the call returns `Ok` and the
/// accounts become what the instruction makes of them; where it is refused,
/// the call returns exactly that error and the accounts stay as they were.
pub proof fn lemma_refusal_leaves_accounts_unchanged<T>(
    r: Result<(), InstructionError>,
    before: T,
    after: T,
    expected: Result<T, InstructionError>,
)
    requires
        settles(r, before, after, expected),
    ensures
        expected is Err ==> r == Err::<(), InstructionError>(expected->Err_0) && after == before,
        expected is Ok ==> r is Ok && after == expected->Ok_0,
{
}

/// Creating an escrow succeeds exactly when the escrow account stands at the
/// address derived for it, and then stores every term as given: the signer as
/// client, the freelancer, the amount, the deadline, the grace period, the
/// review window and the job id, with the status Pending and no completion
/// time; the account's address and balance stay as they were.
pub proof fn lemma_initialize_stores_the_terms(
    escrow: EscrowAccount,
    signer: Pubkey,
    derived: Option<(Seq<u8>, u8)>,
    job_id: u64,
    freelancer: Pubkey,
    amount: u64,
    deadline: i64,
    grace_period: i64,
    review_window: i64,
)
    ensures
        ({
            let r = initialize_escrow_spec(
                escrow,
                signer,
                derived,
                job_id,
                freelancer,
                amount,
                deadline,
                grace_period,
                review_window,
            );
            &&& r is Ok <==> (derived matches Some((key, _)) && key == escrow.key@)
            &&& r is Err ==> r == Err::<EscrowAccount, InstructionError>(InstructionError::ConstraintSeeds)
            &&& r matches Ok(e) ==> {
                &&& e.key == escrow.key
                &&& e.lamports == escrow.lamports
                &&& e.state.client == signer
                &&& e.state.freelancer == freelancer
                &&& e.state.amount == amount
                &&& e.state.status == Status::Pending
                &&& e.state.deadline == deadline
                &&& e.state.grace_period == grace_period
                &&& e.state.review_window == review_window
                &&& e.state.completed_at == 0
                &&& e.state.job_id == job_id
            }
        }),
{
}

/// Funding is refused to anyone but the named client (`ConstraintHasOne`) and
/// on an escrow that is not pending (`ConstraintRaw`); otherwise it succeeds,
/// marks the escrow funded and changes nothing else, and asks for a transfer
/// of exactly the recorded amount from the signer to the escrow account.
pub proof fn lemma_fund_behaviour(escrow: EscrowAccount, signer: Pubkey)
    ensures
        escrow.state.client@ != signer@ ==> fund_escrow_spec(escrow, signer) == Err::<
            (EscrowAccount, SystemTransfer),
            InstructionError,
        >(InstructionError::ConstraintHasOne),
        escrow.state.client@ == signer@ && escrow.state.status != Status::Pending ==> fund_escrow_spec(
            escrow,
            signer,
        ) == Err::<(EscrowAccount, SystemTransfer), InstructionError>(InstructionError::ConstraintRaw),
        escrow.state.client@ == signer@ && escrow.state.status == Status::Pending ==> fund_escrow_spec(
            escrow,
            signer,
        ) is Ok,
        fund_escrow_spec(escrow, signer) matches Ok((e, t)) ==> {
            &&& escrow.state.client@ == signer@
            &&& escrow.state.status == Status::Pending
            &&& e.key == escrow.key
            &&& e.lamports == escrow.lamports
            &&& e.state == EscrowState { status: Status::Funded, ..escrow.state }
            &&& t.from == signer
            &&& t.to == escrow.key
            &&& t.lamports == escrow.state.amount
        },
{
}

/// Accepting is refused to anyone but the named freelancer, on an escrow that
/// is not funded, and at any time from the deadline on
/// (`TooLateToSetToComplete`); otherwise it succeeds and only marks the escrow
/// accepted.
pub proof fn lemma_accept_behaviour(escrow: EscrowAccount, signer: Pubkey, now: i64)
    ensures
        escrow.state.freelancer@ != signer@ ==> accept_job_spec(escrow, signer, now) == Err::<
            EscrowAccount,
            InstructionError,
        >(InstructionError::ConstraintHasOne),
        escrow.state.freelancer@ == signer@ && escrow.state.status != Status::Funded ==> accept_job_spec(
            escrow,
            signer,
            now,
        ) == Err::<EscrowAccount, InstructionError>(InstructionError::ConstraintRaw),
        escrow.state.freelancer@ == signer@ && escrow.state.status == Status::Funded && now
            >= escrow.state.deadline ==> accept_job_spec(escrow, signer, now) == Err::<
            EscrowAccount,
            InstructionError,
        >(InstructionError::Escrow(EscrowError::TooLateToSetToComplete)),
        escrow.state.freelancer@ == signer@ && escrow.state.status == Status::Funded && now
            < escrow.state.deadline ==> accept_job_spec(escrow, signer, now) is Ok,
        accept_job_spec(escrow, signer, now) matches Ok(e) ==> {
            &&& escrow.state.freelancer@ == signer@
            &&& escrow.state.status == Status::Funded
            &&& now < escrow.state.deadline
            &&& e.key == escrow.key
            &&& e.lamports == escrow.lamports
            &&& e.state == EscrowState { status: Status::Accepted, ..escrow.state }
        },
{
}

/// Completing is refused to anyone but the named freelancer, on an escrow that
/// is not accepted, and at any time after the deadline plus the grace period
/// (`TooLateToSetToComplete`), whatever completion time the escrow holds;
/// otherwise it succeeds, marks the escrow completed and records `now` as the
/// completion time, and changes nothing else.
pub proof fn lemma_complete_behaviour(escrow: EscrowAccount, signer: Pubkey, now: i64)
    ensures
        escrow.state.freelancer@ != signer@ ==> complete_job_spec(escrow, signer, now) == Err::<
            EscrowAccount,
            InstructionError,
        >(InstructionError::ConstraintHasOne),
        escrow.state.freelancer@ == signer@ && escrow.state.status != Status::Accepted ==> complete_job_spec(
            escrow,
            signer,
            now,
        ) == Err::<EscrowAccount, InstructionError>(InstructionError::ConstraintRaw),
        escrow.state.freelancer@ == signer@ && escrow.state.status == Status::Accepted && now
            > escrow.state.deadline + escrow.state.grace_period ==> complete_job_spec(escrow, signer, now)
            == Err::<EscrowAccount, InstructionError>(
            InstructionError::Escrow(EscrowError::TooLateToSetToComplete),
        ),
        escrow.state.freelancer@ == signer@ && escrow.state.status == Status::Accepted && now
            <= escrow.state.deadline + escrow.state.grace_period ==> complete_job_spec(escrow, signer, now) is Ok,
        complete_job_spec(escrow, signer, now) matches Ok(e) ==> {
            &&& escrow.state.freelancer@ == signer@
            &&& escrow.state.status == Status::Accepted
            &&& now <= escrow.state.deadline + escrow.state.grace_period
            &&& e.key == escrow.key
            &&& e.lamports == escrow.lamports
            &&& e.state == EscrowState { status: Status::Completed, completed_at: now, ..escrow.state }
        },
{
}

/// Releasing is refused with `ConstraintSeeds` unless the escrow account
/// stands at the address derived for it; then to anyone but the named client,
/// to a wallet other than the named freelancer's, and on an escrow that is not
/// completed (`ConstraintHasOne`, `ConstraintHasOne`, `ConstraintRaw`, in that
/// order). Otherwise it succeeds: the escrow, marked released and otherwise
/// unchanged, pays exactly the recorded amount to the freelancer's wallet.
pub proof fn lemma_release_behaviour(
    escrow: EscrowAccount,
    signer: Pubkey,
    wallet: Wallet,
    derived: Option<(Seq<u8>, u8)>,
)
    ensures
        !(derived matches Some((key, _)) && key == escrow.key@) ==> release_funds_spec(
            escrow,
            signer,
            wallet,
            derived,
        ) == Err::<(EscrowAccount, Wallet), InstructionError>(InstructionError::ConstraintSeeds),
        (derived matches Some((key, _)) && key == escrow.key@) && escrow.state.client@ != signer@
            ==> release_funds_spec(escrow, signer, wallet, derived) == Err::<(EscrowAccount, Wallet), InstructionError>(
            InstructionError::ConstraintHasOne,
        ),
        (derived matches Some((key, _)) && key == escrow.key@) && escrow.state.client@ == signer@
            && escrow.state.freelancer@ != wallet.key@ ==> release_funds_spec(escrow, signer, wallet, derived)
            == Err::<(EscrowAccount, Wallet), InstructionError>(InstructionError::ConstraintHasOne),
        (derived matches Some((key, _)) && key == escrow.key@) && escrow.state.client@ == signer@
            && escrow.state.freelancer@ == wallet.key@ && escrow.state.status != Status::Completed
            ==> release_funds_spec(escrow, signer, wallet, derived) == Err::<(EscrowAccount, Wallet), InstructionError>(
            InstructionError::ConstraintRaw,
        ),
        release_funds_spec(escrow, signer, wallet, derived) matches Ok((e, w)) ==> {
            &&& derived matches Some((key, _)) && key == escrow.key@
            &&& escrow.state.client@ == signer@
            &&& escrow.state.freelancer@ == wallet.key@
            &&& escrow.state.status == Status::Completed
            &&& e.key == escrow.key
            &&& e.state == EscrowState { status: Status::Released, ..escrow.state }
            &&& w.key == wallet.key
            &&& (escrow.lamports >= escrow.state.amount && wallet.lamports + escrow.state.amount <= u64::MAX)
                ==> e.lamports == escrow.lamports - escrow.state.amount && w.lamports == wallet.lamports
                + escrow.state.amount
        },
        (derived matches Some((key, _)) && key == escrow.key@) && escrow.state.client@ == signer@
            && escrow.state.freelancer@ == wallet.key@ && escrow.state.status == Status::Completed
            ==> release_funds_spec(escrow, signer, wallet, derived) is Ok,
{
}

/// Claiming is refused to anyone but the named freelancer and on an escrow
/// that is not completed; on a completed escrow it is refused as too early at
/// any time before the stored completion time plus the review window plus the
/// grace period, whatever the deadline, and succeeds from that moment on: the
/// escrow, marked released and otherwise unchanged, pays exactly the recorded
/// amount to the freelancer's wallet.
pub proof fn lemma_claim_behaviour(escrow: EscrowAccount, wallet: Wallet, now: i64)
    ensures
        escrow.state.freelancer@ != wallet.key@ ==> claim_after_deadline_spec(escrow, wallet, now) == Err::<
            (EscrowAccount, Wallet),
            InstructionError,
        >(InstructionError::ConstraintHasOne),
        escrow.state.freelancer@ == wallet.key@ && escrow.state.status != Status::Completed
            ==> claim_after_deadline_spec(escrow, wallet, now) == Err::<(EscrowAccount, Wallet), InstructionError>(
            InstructionError::ConstraintRaw,
        ),
        escrow.state.freelancer@ == wallet.key@ && escrow.state.status == Status::Completed && now
            < escrow.state.completed_at + escrow.state.review_window + escrow.state.grace_period
            ==> claim_after_deadline_spec(escrow, wallet, now) == Err::<(EscrowAccount, Wallet), InstructionError>(
            InstructionError::Escrow(EscrowError::TooEarlyToClaim),
        ),
        escrow.state.freelancer@ == wallet.key@ && escrow.state.status == Status::Completed && now
            >= escrow.state.completed_at + escrow.state.review_window + escrow.state.grace_period
            ==> claim_after_deadline_spec(escrow, wallet, now) is Ok,
        claim_after_deadline_spec(escrow, wallet, now) matches Ok((e, w)) ==> {
            &&& escrow.state.freelancer@ == wallet.key@
            &&& escrow.state.status == Status::Completed
            &&& now >= escrow.state.completed_at + escrow.state.review_window + escrow.state.grace_period
            &&& e.key == escrow.key
            &&& e.state == EscrowState { status: Status::Released, ..escrow.state }
            &&& w.key == wallet.key
            &&& (escrow.lamports >= escrow.state.amount && wallet.lamports + escrow.state.amount <= u64::MAX)
                ==> e.lamports == escrow.lamports - escrow.state.amount && w.lamports == wallet.lamports
                + escrow.state.amount
        },
{
}

/// Cancelling is refused to anyone but the named client and on an escrow that
/// is neither funded nor accepted (a completed job can never be cancelled); on
/// a funded or accepted escrow it is refused as too early before the deadline
/// and succeeds from the deadline on: the escrow, marked cancelled and
/// otherwise unchanged, pays exactly the recorded amount back to the client.
pub proof fn lemma_cancel_behaviour(escrow: EscrowAccount, wallet: Wallet, now: i64)
    ensures
        escrow.state.client@ != wallet.key@ ==> cancel_and_refund_spec(escrow, wallet, now) == Err::<
            (EscrowAccount, Wallet),
            InstructionError,
        >(InstructionError::ConstraintHasOne),
        escrow.state.client@ == wallet.key@ && escrow.state.status != Status::Funded && escrow.state.status
            != Status::Accepted ==> cancel_and_refund_spec(escrow, wallet, now) == Err::<
            (EscrowAccount, Wallet),
            InstructionError,
        >(InstructionError::ConstraintRaw),
        escrow.state.client@ == wallet.key@ && (escrow.state.status == Status::Funded || escrow.state.status
            == Status::Accepted) && now < escrow.state.deadline ==> cancel_and_refund_spec(escrow, wallet, now)
            == Err::<(EscrowAccount, Wallet), InstructionError>(
            InstructionError::Escrow(EscrowError::TooEarlyToCancel),
        ),
        escrow.state.client@ == wallet.key@ && (escrow.state.status == Status::Funded || escrow.state.status
            == Status::Accepted) && now >= escrow.state.deadline ==> cancel_and_refund_spec(escrow, wallet, now) is Ok,
        cancel_and_refund_spec(escrow, wallet, now) matches Ok((e, w)) ==> {
            &&& escrow.state.client@ == wallet.key@
            &&& (escrow.state.status == Status::Funded || escrow.state.status == Status::Accepted)
            &&& now >= escrow.state.deadline
            &&& e.key == escrow.key
            &&& e.state == EscrowState { status: Status::Cancelled, ..escrow.state }
            &&& w.key == wallet.key
            &&& (escrow.lamports >= escrow.state.amount && wallet.lamports + escrow.state.amount <= u64::MAX)
                ==> e.lamports == escrow.lamports - escrow.state.amount && w.lamports == wallet.lamports
                + escrow.state.amount
        },
{
}

/// The address check accepts exactly the derived address, and then gives its
/// bump.
pub proof fn lemma_seeds_check_accepts_only_the_derived_address(
    escrow: Pubkey,
    derived: Option<(Pubkey, u8)>,
)
    ensures
        seeds_check(escrow@, derived_view(derived)) is Ok <==> (derived matches Some((key, _)) && key@
            == escrow@),
        derived matches Some((key, bump)) ==> (key@ == escrow@ ==> seeds_check(escrow@, derived_view(derived))
            == Ok::<u8, InstructionError>(bump)),
        seeds_check(escrow@, derived_view(derived)) is Err ==> seeds_check(escrow@, derived_view(derived))
            == Err::<u8, InstructionError>(InstructionError::ConstraintSeeds),
{
}

/// The seeds of an escrow are the tag `b"escrow"`, the client's address and the
/// job id in little-endian bytes, so two escrows share their seeds only where
/// they share both client and job id.
pub proof fn lemma_escrow_seeds(client: Seq<u8>, job_id: u64, other_client: Seq<u8>, other_job_id: u64)
    ensures
        escrow_seeds_spec(client, job_id).len() == 3,
        escrow_seeds_spec(client, job_id)[0] == seq![101u8, 115u8, 99u8, 114u8, 111u8, 119u8],
        escrow_seeds_spec(client, job_id)[1] == client,
        escrow_seeds_spec(client, job_id)[2] == spec_u64_to_le_bytes(job_id),
        spec_u64_from_le_bytes(escrow_seeds_spec(client, job_id)[2]) == job_id,
        escrow_seeds_spec(client, job_id) == escrow_seeds_spec(other_client, other_job_id) ==> client
            == other_client && job_id == other_job_id,
        forall|program_id: Seq<u8>|
            #![trigger escrow_address_spec(client, job_id, program_id)]
            escrow_address_spec(client, job_id, program_id) == program_address(
                seq![seq![101u8, 115u8, 99u8, 114u8, 111u8, 119u8], client, spec_u64_to_le_bytes(job_id)],
                program_id,
            ),
{
    assert(escrow_seeds_spec(client, job_id) =~= seq![
        seq![101u8, 115u8, 99u8, 114u8, 111u8, 119u8],
        client,
        spec_u64_to_le_bytes(job_id),
    ]);
    lemma_auto_spec_u64_to_from_le_bytes();
    if escrow_seeds_spec(client, job_id) == escrow_seeds_spec(other_client, other_job_id) {
        assert(escrow_seeds_spec(client, job_id)[1] == escrow_seeds_spec(other_client, other_job_id)[1]);
        assert(escrow_seeds_spec(client, job_id)[2] == escrow_seeds_spec(other_client, other_job_id)[2]);
    }
}

/// The calls that the instructions' contracts leave out are exactly those on
/// which the program would overflow: completing adds the grace period to the
/// deadline once the freelancer and the status pass; claiming adds the review
/// window and then the grace period to the completion time once the freelancer
/// and the status pass, and pays out once the time has come; releasing and
/// cancelling pay out once every check passes. Paying out takes the amount
/// from the escrow's balance and adds it to the recipient's.
pub proof fn lemma_excluded_calls_are_the_overflowing_ones(
    escrow: EscrowAccount,
    signer: Pubkey,
    wallet: Wallet,
    now: i64,
    t: int,
)
    ensures
        fits_i64(t) <==> (i64::MIN <= t && t <= i64::MAX),
        can_pay_out(escrow, wallet) <==> (escrow.lamports >= escrow.state.amount && wallet.lamports
            + escrow.state.amount <= u64::MAX),
        complete_job_admits(escrow, signer) <==> (escrow.state.freelancer@ == signer@ && escrow.state.status
            == Status::Accepted),
        claim_after_deadline_admits(escrow, wallet) <==> (escrow.state.freelancer@ == wallet.key@
            && escrow.state.status == Status::Completed),
        claimable_at(escrow) == escrow.state.completed_at + escrow.state.review_window + escrow.state.grace_period,
        cancel_and_refund_admits(escrow, wallet, now) <==> (escrow.state.client@ == wallet.key@ && (
        escrow.state.status == Status::Funded || escrow.state.status == Status::Accepted) && now
            >= escrow.state.deadline),
        release_funds_admits(escrow, signer, wallet) <==> (escrow.state.client@ == signer@
            && escrow.state.freelancer@ == wallet.key@ && escrow.state.status == Status::Completed),
{
}

} // verus!
