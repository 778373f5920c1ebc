use anchor_lang::prelude::Pubkey as ChainKey;
use freelance_escrow::pda::{derive_escrow_address, escrow_seeds, verify_escrow_address};
use freelance_escrow::{
    accept_job, cancel_and_refund, claim_after_deadline, complete_job, fund_escrow, initialize_escrow,
    release_funds, AcceptJob, CancelAndRefund, ClaimAfterDeadline, CompleteJob, Context, EscrowAccount,
    EscrowError, EscrowState, FundEscrow, InitializeEscrow, InstructionError, Pubkey, ReleaseFunds, Status,
    SystemTransfer, Wallet,
};

const CLIENT: Pubkey = Pubkey { bytes: [7u8; 32] };
const FREELANCER: Pubkey = Pubkey { bytes: [9u8; 32] };
const STRANGER: Pubkey = Pubkey { bytes: [4u8; 32] };
const PROGRAM: Pubkey = Pubkey { bytes: [3u8; 32] };

fn key_of(k: &Pubkey) -> ChainKey {
    ChainKey::new_from_array(k.bytes)
}

fn pda(client: &Pubkey, job_id: u64, program: &Pubkey) -> (Pubkey, u8) {
    let (key, bump) = ChainKey::find_program_address(
        &[b"escrow", key_of(client).as_ref(), &job_id.to_le_bytes()],
        &key_of(program),
    );
    (Pubkey { bytes: key.to_bytes() }, bump)
}

fn escrow_with(status: Status) -> EscrowAccount {
    let (key, _) = pda(&CLIENT, 5, &PROGRAM);
    EscrowAccount {
        key,
        lamports: 1_500,
        state: EscrowState {
            client: CLIENT,
            freelancer: FREELANCER,
            amount: 1_000,
            status,
            deadline: 100,
            grace_period: 20,
            review_window: 30,
            completed_at: 90,
            job_id: 5,
        },
    }
}

fn accept_at(escrow: EscrowAccount, signer: Pubkey, now: i64) -> (Result<(), InstructionError>, EscrowAccount) {
    let mut ctx = Context { program_id: PROGRAM, accounts: AcceptJob { freelancer: signer, escrow } };
    let r = accept_job(&mut ctx, now);
    (r, ctx.accounts.escrow)
}

fn complete_at(escrow: EscrowAccount, signer: Pubkey, now: i64) -> (Result<(), InstructionError>, EscrowAccount) {
    let mut ctx = Context { program_id: PROGRAM, accounts: CompleteJob { freelancer: signer, escrow } };
    let r = complete_job(&mut ctx, now);
    (r, ctx.accounts.escrow)
}

fn fund_by(escrow: EscrowAccount, signer: Pubkey) -> (Result<SystemTransfer, InstructionError>, EscrowAccount) {
    let mut ctx = Context { program_id: PROGRAM, accounts: FundEscrow { client: signer, escrow } };
    let r = fund_escrow(&mut ctx);
    (r, ctx.accounts.escrow)
}

fn release_by(
    escrow: EscrowAccount,
    signer: Pubkey,
    to: Wallet,
) -> (Result<(), InstructionError>, EscrowAccount, Wallet) {
    let mut ctx = Context { program_id: PROGRAM, accounts: ReleaseFunds { client: signer, escrow, freelancer: to } };
    let r = release_funds(&mut ctx);
    (r, ctx.accounts.escrow, ctx.accounts.freelancer)
}

fn claim_at(escrow: EscrowAccount, by: Wallet, now: i64) -> (Result<(), InstructionError>, EscrowAccount, Wallet) {
    let mut ctx = Context { program_id: PROGRAM, accounts: ClaimAfterDeadline { freelancer: by, escrow } };
    let r = claim_after_deadline(&mut ctx, now);
    (r, ctx.accounts.escrow, ctx.accounts.freelancer)
}

fn cancel_at(escrow: EscrowAccount, by: Wallet, now: i64) -> (Result<(), InstructionError>, EscrowAccount, Wallet) {
    let mut ctx = Context { program_id: PROGRAM, accounts: CancelAndRefund { client: by, escrow } };
    let r = cancel_and_refund(&mut ctx, now);
    (r, ctx.accounts.escrow, ctx.accounts.client)
}

fn wallet(key: Pubkey) -> Wallet {
    Wallet { key, lamports: 50 }
}

#[test]
fn escrow_seeds_are_tag_client_and_little_endian_job_id() {
    let seeds = escrow_seeds(&CLIENT, 0x0102030405060708);
    assert_eq!(seeds.len(), 3);
    assert_eq!(seeds[0], b"escrow".to_vec());
    assert_eq!(seeds[1], vec![7u8; 32]);
    assert_eq!(seeds[2], vec![8u8, 7, 6, 5, 4, 3, 2, 1]);
}

#[test]
fn derived_escrow_address_is_the_program_derived_address() {
    let derived = derive_escrow_address(&CLIENT, 5, &PROGRAM);
    let expected = pda(&CLIENT, 5, &PROGRAM);
    assert_eq!(derived, Some(expected));
    assert_ne!(expected.0, PROGRAM);
    assert_ne!(expected.0, CLIENT);
    assert_ne!(derive_escrow_address(&CLIENT, 6, &PROGRAM), Some(expected));
}

#[test]
fn seeds_constraint_accepts_only_the_derived_address() {
    let (key, bump) = pda(&CLIENT, 5, &PROGRAM);
    assert_eq!(verify_escrow_address(&key, &Some((key, bump))), Ok(bump));
    assert_eq!(verify_escrow_address(&STRANGER, &Some((key, bump))), Err(InstructionError::ConstraintSeeds));
    assert_eq!(verify_escrow_address(&key, &None), Err(InstructionError::ConstraintSeeds));
}

#[test]
fn initialize_writes_the_terms_as_pending() {
    let (key, _) = pda(&CLIENT, 5, &PROGRAM);
    let blank = EscrowAccount { key, lamports: 1_500, ..escrow_with(Status::Completed) };
    let mut ctx = Context { program_id: PROGRAM, accounts: InitializeEscrow { client: CLIENT, escrow: blank } };
    assert_eq!(initialize_escrow(&mut ctx, 5, FREELANCER, 77, 10, 2, 3), Ok(()));
    let state = ctx.accounts.escrow.state;
    assert_eq!(state.client, CLIENT);
    assert_eq!(state.freelancer, FREELANCER);
    assert_eq!(state.amount, 77);
    assert_eq!(state.deadline, 10);
    assert_eq!(state.grace_period, 2);
    assert_eq!(state.review_window, 3);
    assert_eq!(state.completed_at, 0);
    assert_eq!(state.job_id, 5);
    assert_eq!(state.status, Status::Pending);
    assert_eq!(ctx.accounts.escrow.lamports, 1_500);
}

#[test]
fn initialize_refuses_an_account_off_its_derived_address() {
    let escrow = EscrowAccount { key: STRANGER, ..escrow_with(Status::Completed) };
    let mut ctx = Context { program_id: PROGRAM, accounts: InitializeEscrow { client: CLIENT, escrow } };
    assert_eq!(initialize_escrow(&mut ctx, 5, FREELANCER, 77, 10, 2, 3), Err(InstructionError::ConstraintSeeds));
    assert_eq!(ctx.accounts.escrow, escrow);
    // Another job id derives another address.
    let escrow = escrow_with(Status::Completed);
    let mut ctx = Context { program_id: PROGRAM, accounts: InitializeEscrow { client: CLIENT, escrow } };
    assert_eq!(initialize_escrow(&mut ctx, 6, FREELANCER, 77, 10, 2, 3), Err(InstructionError::ConstraintSeeds));
}

#[test]
fn fund_asks_for_the_recorded_amount_from_the_client() {
    let escrow = escrow_with(Status::Pending);
    let (r, after) = fund_by(escrow, CLIENT);
    assert_eq!(r, Ok(SystemTransfer { from: CLIENT, to: escrow.key, lamports: 1_000 }));
    assert_eq!(after.state.status, Status::Funded);
    assert_eq!(after.lamports, escrow.lamports);
}

#[test]
fn fund_refuses_strangers_and_a_second_funding() {
    let escrow = escrow_with(Status::Pending);
    assert_eq!(fund_by(escrow, FREELANCER), (Err(InstructionError::ConstraintHasOne), escrow));
    let funded = escrow_with(Status::Funded);
    assert_eq!(fund_by(funded, CLIENT), (Err(InstructionError::ConstraintRaw), funded));
}

#[test]
fn accept_gates() {
    let funded = escrow_with(Status::Funded);
    let (r, after) = accept_at(funded, FREELANCER, 99);
    assert_eq!(r, Ok(()));
    assert_eq!(after.state, EscrowState { status: Status::Accepted, ..funded.state });
    assert_eq!(accept_at(funded, CLIENT, 99), (Err(InstructionError::ConstraintHasOne), funded));
    let pending = escrow_with(Status::Pending);
    assert_eq!(accept_at(pending, FREELANCER, 99), (Err(InstructionError::ConstraintRaw), pending));
    assert_eq!(
        accept_at(funded, FREELANCER, 100),
        (Err(InstructionError::Escrow(EscrowError::TooLateToSetToComplete)), funded)
    );
}

#[test]
fn complete_records_the_clock_and_gates_lateness() {
    let accepted = escrow_with(Status::Accepted);
    let (r, after) = complete_at(accepted, FREELANCER, 120);
    assert_eq!(r, Ok(()));
    assert_eq!(after.state.completed_at, 120);
    assert_eq!(after.state.status, Status::Completed);
    assert_eq!(
        complete_at(accepted, FREELANCER, 121),
        (Err(InstructionError::Escrow(EscrowError::TooLateToSetToComplete)), accepted)
    );
    assert_eq!(complete_at(accepted, CLIENT, 50), (Err(InstructionError::ConstraintHasOne), accepted));
    let funded = escrow_with(Status::Funded);
    assert_eq!(complete_at(funded, FREELANCER, 50), (Err(InstructionError::ConstraintRaw), funded));
}

#[test]
fn release_pays_the_freelancer_exactly_the_amount() {
    let completed = escrow_with(Status::Completed);
    let (r, escrow, paid) = release_by(completed, CLIENT, wallet(FREELANCER));
    assert_eq!(r, Ok(()));
    assert_eq!(escrow.lamports, 500);
    assert_eq!(paid.lamports, 1_050);
    assert_eq!(escrow.lamports + paid.lamports, completed.lamports + 50);
    assert_eq!(escrow.state, EscrowState { status: Status::Released, ..completed.state });
}

#[test]
fn release_refusals() {
    let completed = escrow_with(Status::Completed);
    let to = wallet(FREELANCER);
    assert_eq!(release_by(completed, FREELANCER, to), (Err(InstructionError::ConstraintSeeds), completed, to));
    let (key, _) = pda(&STRANGER, 5, &PROGRAM);
    let stranger_escrow = EscrowAccount { key, ..completed };
    assert_eq!(
        release_by(stranger_escrow, STRANGER, to),
        (Err(InstructionError::ConstraintHasOne), stranger_escrow, to)
    );
    let other = wallet(STRANGER);
    assert_eq!(release_by(completed, CLIENT, other), (Err(InstructionError::ConstraintHasOne), completed, other));
    let accepted = escrow_with(Status::Accepted);
    assert_eq!(release_by(accepted, CLIENT, to), (Err(InstructionError::ConstraintRaw), accepted, to));
}

#[test]
fn claim_opens_at_completion_plus_review_window_plus_grace() {
    let completed = escrow_with(Status::Completed);
    let by = wallet(FREELANCER);
    assert_eq!(
        claim_at(completed, by, 139),
        (Err(InstructionError::Escrow(EscrowError::TooEarlyToClaim)), completed, by)
    );
    let (r, escrow, paid) = claim_at(completed, by, 140);
    assert_eq!(r, Ok(()));
    assert_eq!(escrow.lamports, 500);
    assert_eq!(paid.lamports, 1_050);
    assert_eq!(escrow.state.status, Status::Released);
    let other = wallet(CLIENT);
    assert_eq!(claim_at(completed, other, 500), (Err(InstructionError::ConstraintHasOne), completed, other));
    let accepted = escrow_with(Status::Accepted);
    assert_eq!(claim_at(accepted, by, 500), (Err(InstructionError::ConstraintRaw), accepted, by));
}

#[test]
fn cancel_opens_at_the_deadline_and_never_after_delivery() {
    let by = wallet(CLIENT);
    for status in [Status::Funded, Status::Accepted] {
        let escrow = escrow_with(status);
        assert_eq!(
            cancel_at(escrow, by, 99),
            (Err(InstructionError::Escrow(EscrowError::TooEarlyToCancel)), escrow, by)
        );
        let (r, after, refunded) = cancel_at(escrow, by, 100);
        assert_eq!(r, Ok(()));
        assert_eq!(after.lamports, 500);
        assert_eq!(refunded.lamports, 1_050);
        assert_eq!(after.state.status, Status::Cancelled);
    }
    let completed = escrow_with(Status::Completed);
    assert_eq!(cancel_at(completed, by, 1_000), (Err(InstructionError::ConstraintRaw), completed, by));
    let funded = escrow_with(Status::Funded);
    let other = wallet(FREELANCER);
    assert_eq!(cancel_at(funded, other, 1_000), (Err(InstructionError::ConstraintHasOne), funded, other));
}

#[test]
fn settled_escrow_refuses_every_instruction() {
    for status in [Status::Released, Status::Cancelled] {
        let escrow = escrow_with(status);
        assert!(fund_by(escrow, CLIENT).0.is_err());
        assert!(accept_at(escrow, FREELANCER, 0).0.is_err());
        assert!(complete_at(escrow, FREELANCER, 0).0.is_err());
        assert!(release_by(escrow, CLIENT, wallet(FREELANCER)).0.is_err());
        assert!(claim_at(escrow, wallet(FREELANCER), 10_000).0.is_err());
        assert!(cancel_at(escrow, wallet(CLIENT), 10_000).0.is_err());
    }
}

#[test]
fn whole_flow_keeps_the_terms() {
    let (key, _) = pda(&CLIENT, 5, &PROGRAM);
    let blank = EscrowAccount { key, lamports: 400, ..escrow_with(Status::Released) };
    let mut ctx = Context { program_id: PROGRAM, accounts: InitializeEscrow { client: CLIENT, escrow: blank } };
    initialize_escrow(&mut ctx, 5, FREELANCER, 1_000, 100, 20, 30).unwrap();
    let created = ctx.accounts.escrow;
    let (t, mut escrow) = fund_by(created, CLIENT);
    escrow.lamports += t.unwrap().lamports;
    let (_, escrow) = accept_at(escrow, FREELANCER, 10);
    let (_, escrow) = complete_at(escrow, FREELANCER, 60);
    let (r, escrow, paid) = release_by(escrow, CLIENT, wallet(FREELANCER));
    assert_eq!(r, Ok(()));
    assert_eq!(escrow.lamports, 400);
    assert_eq!(paid.lamports, 1_050);
    let fixed = EscrowState { status: Status::Released, completed_at: 60, ..created.state };
    assert_eq!(escrow.state, fixed);
}
