// The program's scenarios, run against a small in-memory ledger that plays the
// runtime's part: it charges the transaction fee to the fee payer, creates the
// escrow account at its derived address funded with the rent-exempt minimum,
// makes the System Program transfer that funding asks for, and keeps the clock.

use anchor_lang::prelude::{Pubkey as ChainKey, Rent};
use freelance_escrow::pda::derive_escrow_address;
use freelance_escrow::{
    accept_job, cancel_and_refund, claim_after_deadline, complete_job, fund_escrow, initialize_escrow,
    release_funds, AcceptJob, CancelAndRefund, ClaimAfterDeadline, CompleteJob, Context, EscrowAccount,
    EscrowState, FundEscrow, InitializeEscrow, InstructionError, Pubkey, ReleaseFunds, Status, Wallet,
};

const FEE: u64 = 5000;
const ESCROW_SPACE: usize = 8 + 32 + 32 + 8 + 1 + 8 + 8 + 8 + 8 + 8;

struct TestSetup {
    program_id: Pubkey,
    client: Wallet,
    freelancer: Wallet,
    escrow: EscrowAccount,
    job_id: u64,
    clock: i64,
}

fn program_id() -> Pubkey {
    Pubkey { bytes: ChainKey::from_str_const("HfXLi5zKpUUUuNfRiX5mC7YWURacwGFabfY27sd89DMq").to_bytes() }
}

fn rent() -> u64 {
    Rent::default().minimum_balance(ESCROW_SPACE)
}

fn blank_state() -> EscrowState {
    let nobody = Pubkey { bytes: [0u8; 32] };
    EscrowState {
        client: nobody,
        freelancer: nobody,
        amount: 0,
        status: Status::Funded,
        deadline: 0,
        grace_period: 0,
        review_window: 0,
        completed_at: 0,
        job_id: 0,
    }
}

fn setup_and_initialize_escrow(deadline: i64, grace_period: i64, review_window: i64) -> TestSetup {
    let program_id = program_id();
    let mut client = Wallet { key: Pubkey { bytes: [7u8; 32] }, lamports: 2_000_000_000 };
    let freelancer = Wallet { key: Pubkey { bytes: [9u8; 32] }, lamports: 2_000_000_000 };
    let job_id: u64 = 1;
    let (escrow_key, _bump) = derive_escrow_address(&client.key, job_id, &program_id).unwrap();

    client.lamports -= FEE;
    client.lamports -= rent();
    let escrow = EscrowAccount { key: escrow_key, lamports: rent(), state: blank_state() };
    let mut ctx = Context { program_id, accounts: InitializeEscrow { client: client.key, escrow } };
    let res = initialize_escrow(
        &mut ctx,
        job_id,
        freelancer.key,
        1_000_000_000,
        deadline,
        grace_period,
        review_window,
    );
    assert!(res.is_ok(), "Initialize failed: {:?}", res);

    TestSetup { program_id, client, freelancer, escrow: ctx.accounts.escrow, job_id, clock: 0 }
}

fn fund(setup: &mut TestSetup) -> Result<(), InstructionError> {
    setup.client.lamports -= FEE;
    let mut ctx = Context {
        program_id: setup.program_id,
        accounts: FundEscrow { client: setup.client.key, escrow: setup.escrow },
    };
    let transfer = fund_escrow(&mut ctx)?;
    assert!(setup.client.lamports >= transfer.lamports);
    setup.client.lamports -= transfer.lamports;
    setup.escrow = ctx.accounts.escrow;
    setup.escrow.lamports += transfer.lamports;
    Ok(())
}

fn accept(setup: &mut TestSetup) -> Result<(), InstructionError> {
    setup.freelancer.lamports -= FEE;
    let mut ctx = Context {
        program_id: setup.program_id,
        accounts: AcceptJob { freelancer: setup.freelancer.key, escrow: setup.escrow },
    };
    let res = accept_job(&mut ctx, setup.clock);
    setup.escrow = ctx.accounts.escrow;
    res
}

fn complete(setup: &mut TestSetup) -> Result<(), InstructionError> {
    setup.freelancer.lamports -= FEE;
    let mut ctx = Context {
        program_id: setup.program_id,
        accounts: CompleteJob { freelancer: setup.freelancer.key, escrow: setup.escrow },
    };
    let res = complete_job(&mut ctx, setup.clock);
    setup.escrow = ctx.accounts.escrow;
    res
}

fn release(setup: &mut TestSetup) -> Result<(), InstructionError> {
    setup.client.lamports -= FEE;
    let mut ctx = Context {
        program_id: setup.program_id,
        accounts: ReleaseFunds { client: setup.client.key, escrow: setup.escrow, freelancer: setup.freelancer },
    };
    let res = release_funds(&mut ctx);
    setup.escrow = ctx.accounts.escrow;
    setup.freelancer = ctx.accounts.freelancer;
    res
}

fn claim(setup: &mut TestSetup) -> Result<(), InstructionError> {
    setup.freelancer.lamports -= FEE;
    let mut ctx = Context {
        program_id: setup.program_id,
        accounts: ClaimAfterDeadline { freelancer: setup.freelancer, escrow: setup.escrow },
    };
    let res = claim_after_deadline(&mut ctx, setup.clock);
    setup.escrow = ctx.accounts.escrow;
    setup.freelancer = ctx.accounts.freelancer;
    res
}

fn cancel(setup: &mut TestSetup) -> Result<(), InstructionError> {
    setup.client.lamports -= FEE;
    let mut ctx = Context {
        program_id: setup.program_id,
        accounts: CancelAndRefund { client: setup.client, escrow: setup.escrow },
    };
    let res = cancel_and_refund(&mut ctx, setup.clock);
    setup.escrow = ctx.accounts.escrow;
    setup.client = ctx.accounts.client;
    res
}

fn setup_funded_and_accepted_escrow(deadline: i64, grace_period: i64, review_window: i64) -> TestSetup {
    let mut setup = setup_and_initialize_escrow(deadline, grace_period, review_window);
    fund(&mut setup).unwrap();
    accept(&mut setup).unwrap();
    setup
}

#[test]
fn test_initialize_escrow() {
    let setup = setup_and_initialize_escrow(9_999_999_999, 100_000, 0);
    let escrow_state = setup.escrow.state;

    assert_eq!(escrow_state.client, setup.client.key);
    assert_eq!(escrow_state.job_id, setup.job_id);
    assert_eq!(escrow_state.amount, 1_000_000_000);
}

#[test]
fn test_accept_job() {
    let mut setup = setup_and_initialize_escrow(9_999_999_999, 100_000, 0);
    fund(&mut setup).unwrap();

    let res = accept(&mut setup);
    assert!(res.is_ok(), "Accepting job failed: {:?}", res);

    assert_eq!(setup.escrow.state.status, Status::Accepted);
}

#[test]
fn test_complete_job() {
    let mut setup = setup_funded_and_accepted_escrow(1000, 0, 0);

    let res = complete(&mut setup);
    assert!(res.is_ok(), "Complete job instruction failed {:?}", res);

    assert_eq!(setup.escrow.state.status, Status::Completed);
}

#[test]
fn test_release_funds() {
    let mut setup = setup_funded_and_accepted_escrow(1000, 0, 0);
    complete(&mut setup).unwrap();

    let freelance_lamports_before = setup.freelancer.lamports;
    let res = release(&mut setup);
    assert!(res.is_ok(), "Funds cannot be relesed: {:?}", res);
    let freelance_lamports_after = setup.freelancer.lamports;

    assert_eq!(freelance_lamports_after - freelance_lamports_before, 1_000_000_000);
    assert_eq!(setup.escrow.lamports, rent());
    assert_eq!(setup.escrow.state.status, Status::Released);
}

#[test]
fn test_claim_after_deadline() {
    let mut setup = setup_funded_and_accepted_escrow(9_999_999_999, 100_000, 1000);
    complete(&mut setup).unwrap();

    let res = claim(&mut setup);
    assert!(res.is_err(), "Should not allow claiming before review window + grace period elapse");

    // Warp the clock past completed_at + review_window + grace_period.
    setup.clock += 200_000;

    let freelancer_before = setup.freelancer.lamports;
    let res = claim(&mut setup);
    assert!(res.is_ok(), "Claim failed {:?}", res);
    let freelancer_after = setup.freelancer.lamports;

    assert_eq!(freelancer_after - freelancer_before, 1_000_000_000 - 5000);
    assert_eq!(setup.escrow.lamports, rent());
    assert_eq!(setup.escrow.state.status, Status::Released);
}

#[test]
fn test_cancel_and_refund_funded() {
    let mut setup = setup_and_initialize_escrow(9_999_999_999, 0, 0);
    fund(&mut setup).unwrap();

    setup.clock += 10_000_000_000;
    let client_before = setup.client.lamports;

    let res = cancel(&mut setup);
    assert!(res.is_ok(), "Cancel from Funded should succeed: {:?}", res);
    let client_after = setup.client.lamports;

    assert_eq!(client_after - client_before, 1_000_000_000 - 5000);
    assert_eq!(setup.escrow.lamports, rent());
    assert_eq!(setup.escrow.state.status, Status::Cancelled);
}

#[test]
fn test_cancel_and_refund_accepted() {
    let mut setup = setup_funded_and_accepted_escrow(9_999_999_999, 0, 0);

    setup.clock += 10_000_000_000;
    let client_before = setup.client.lamports;

    let res = cancel(&mut setup);
    assert!(res.is_ok(), "Cancel from Funded should succeed: {:?}", res);
    let client_after = setup.client.lamports;

    assert_eq!(client_after - client_before, 1_000_000_000 - 5000);
    assert_eq!(setup.escrow.lamports, rent());
    assert_eq!(setup.escrow.state.status, Status::Cancelled);
}
